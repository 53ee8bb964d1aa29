//! What the reader makes of any image, built here or not.
use vstd::prelude::*;
use crate::mfs::dirent;
use crate::mfs::inode;
use crate::mfs::inode::Node;
use crate::mkfs::path_laws;
use crate::mkfs::verify;
use crate::text;

verus! {

/// Up to a slash behind `a`, a path is read as `a` is.
proof fn lemma_end_before(a: Seq<char>, b: Seq<char>, i: int)
    requires
        0 <= i <= a.len(),
    ensures
        text::end_of(a + seq!['/'] + b, i) == text::end_of(a, i),
    decreases a.len() - i,
{
    let all = a + seq!['/'] + b;
    assert(i < a.len() ==> all[i] == a[i]);
    assert(all[a.len() as int] == '/');
    if i < a.len() && a[i] != '/' {
        lemma_end_before(a, b, i + 1);
    }
}

proof fn lemma_parts_before(a: Seq<char>, b: Seq<char>, i: int)
    requires
        0 <= i <= a.len(),
    ensures
        verify::parts_from(a + seq!['/'] + b, i) == verify::parts_from(a, i) + verify::parts_from(
            a + seq!['/'] + b,
            a.len() as int,
        ),
    decreases a.len() - i,
{
    let all = a + seq!['/'] + b;
    let n = a.len() as int;
    if i == n {
        assert(verify::parts_from(a, i) =~= Seq::<Seq<char>>::empty());
        assert(verify::parts_from(a, i) + verify::parts_from(all, n) =~= verify::parts_from(all, n));
    } else {
        assert(all[i] == a[i]);
        if a[i] == '/' {
            lemma_parts_before(a, b, i + 1);
        } else {
            let e = text::end_of(a, i);
            text::lemma_end_of(a, i);
            lemma_end_before(a, b, i);
            lemma_parts_before(a, b, e);
            assert(all.subrange(i, e) =~= a.subrange(i, e));
            let c = seq![a.subrange(i, e)];
            assert(c + (verify::parts_from(a, e) + verify::parts_from(all, n)) =~= (c
                + verify::parts_from(a, e)) + verify::parts_from(all, n));
        }
    }
}

proof fn lemma_end_after(x: Seq<char>, b: Seq<char>, i: int)
    requires
        0 <= i <= b.len(),
    ensures
        text::end_of(x + b, x.len() + i) == x.len() + text::end_of(b, i),
    decreases b.len() - i,
{
    if i < b.len() {
        assert((x + b)[x.len() + i] == b[i]);
        if b[i] != '/' {
            lemma_end_after(x, b, i + 1);
        }
    }
}

proof fn lemma_parts_after(x: Seq<char>, b: Seq<char>, i: int)
    requires
        0 <= i <= b.len(),
    ensures
        verify::parts_from(x + b, x.len() + i) == verify::parts_from(b, i),
    decreases b.len() - i,
{
    let all = x + b;
    if i < b.len() {
        assert(all[x.len() + i] == b[i]);
        if b[i] == '/' {
            lemma_parts_after(x, b, i + 1);
        } else {
            let e = text::end_of(b, i);
            text::lemma_end_of(b, i);
            lemma_end_after(x, b, i);
            lemma_parts_after(x, b, e);
            assert(all.subrange(x.len() + i, x.len() + e) =~= b.subrange(i, e));
        }
    }
}

/// How a path falls into components: a slash parts what stands before it from what
/// follows, nothing has no components, and a name without a slash is one.
pub proof fn law_slashes_part_components(a: Seq<char>, b: Seq<char>, c: Seq<char>)
    requires
        c.len() > 0,
        !c.contains('/'),
    ensures
        verify::parts_from(a + seq!['/'] + b, 0) == verify::parts_from(a, 0) + verify::parts_from(
            b,
            0,
        ),
        verify::parts_from(Seq::empty(), 0) == Seq::<Seq<char>>::empty(),
        verify::parts_from(c, 0) == seq![c],
{
    let all = a + seq!['/'] + b;
    lemma_parts_before(a, b, 0);
    assert(all[a.len() as int] == '/');
    let x = a + seq!['/'];
    assert(all =~= x + b);
    lemma_parts_after(x, b, 0);
    assert(verify::parts_from(all, a.len() as int) == verify::parts_from(b, 0));
    text::lemma_end_of(c, 0);
    let e = text::end_of(c, 0);
    assert(c.contains(c[0]));
    if e < c.len() {
        assert(c.contains(c[e]));
    }
    assert(c.subrange(0, e) =~= c);
    assert(verify::parts_from(c, e) =~= Seq::<Seq<char>>::empty());
    assert(verify::parts_from(c, 0) =~= seq![c]);
}

/// A lookup goes on from where the shorter path led: one more name is looked for in the
/// directory reached so far, and what it leads to is the inode its entry names. A path
/// that leads nowhere leads nowhere however it goes on, and so does one that goes
/// through anything but a directory.
pub proof fn law_lookup_goes_on(img: Seq<u8>, path: Seq<char>, name: Seq<char>)
    requires
        name.len() > 0,
        !name.contains('/'),
    ensures
        ({
            let longer = verify::resolve(img, path + seq!['/'] + name);
            match verify::resolve(img, path) {
                None => longer is None,
                Some((_, node)) => {
                    &&& !inode::mode_is_dir(node.mode) ==> longer is None
                    &&& inode::mode_is_dir(node.mode) && verify::content(img, node) is None
                        ==> longer is None
                    &&& inode::mode_is_dir(node.mode) && verify::content(img, node) is Some ==> {
                        let dir = verify::content(img, node)->0;
                        match verify::find_from(dir, vstd::utf8::encode_utf8(name), 0) {
                            None => longer is None,
                            Some(ino) => longer == (match verify::node_of(img, ino) {
                                Some(n) => Some((ino, n)),
                                None => None::<(u32, Node)>,
                            }),
                        }
                    }
                },
            }
        }),
        verify::resolve(img, seq!['/']) == (match verify::node_of(img, 1) {
            Some(root) => Some((1u32, root)),
            None => None::<(u32, Node)>,
        }),
{
    law_slashes_part_components(path, name, name);
    let front = verify::parts_from(path, 0);
    if let Some(root) = verify::node_of(img, 1) {
        path_laws::lemma_walk_on(img, 1, root, front, seq![name]);
        if let Some((i, node)) = verify::walk(img, 1, root, front) {
            reveal_with_fuel(verify::walk, 2);
            assert(seq![name][0] == name);
            assert(seq![name].skip(1) =~= Seq::<Seq<char>>::empty());
        }
        reveal_with_fuel(verify::parts_from, 3);
        assert(verify::parts_from(seq!['/'], 0) =~= Seq::<Seq<char>>::empty());
    }
}

/// What is found in a directory is the inode of an entry that is in use and carries the
/// name; no such entry comes before it. What is not found no entry in use carries.
pub proof fn law_found_is_the_first_entry(dir: Seq<u8>, name: Seq<u8>, k: int)
    requires
        0 <= k,
    ensures
        match verify::find_from(dir, name, k) {
            Some(ino) => ino != 0 && exists|j: int|
                #![trigger dirent::name_at(dir, 64 * j)]
                k <= j && 64 * j + 64 <= dir.len() && dirent::name_at(dir, 64 * j) == name
                    && dirent::ino_at(dir, 64 * j) == ino && forall|i: int|
                    k <= i < j && dirent::ino_at(dir, 64 * i) != 0 ==> #[trigger] dirent::name_at(
                        dir,
                        64 * i,
                    ) != name,
            None => forall|j: int|
                k <= j && 64 * j + 64 <= dir.len() && dirent::ino_at(dir, 64 * j) != 0
                    ==> #[trigger] dirent::name_at(dir, 64 * j) != name,
        },
    decreases verify::entry_count(dir) - k,
{
    if k < verify::entry_count(dir) {
        if verify::entry_live(dir, k) && dirent::name_at(dir, 64 * k) == name {
            assert(64 * k + 64 <= dir.len());
        } else {
            law_found_is_the_first_entry(dir, name, k + 1);
            if let Some(ino) = verify::find_from(dir, name, k + 1) {
                let j = choose|j: int|
                    #![trigger dirent::name_at(dir, 64 * j)]
                    k + 1 <= j && 64 * j + 64 <= dir.len() && dirent::name_at(dir, 64 * j) == name
                        && dirent::ino_at(dir, 64 * j) == ino && forall|i: int|
                        k + 1 <= i < j && dirent::ino_at(dir, 64 * i) != 0
                            ==> #[trigger] dirent::name_at(dir, 64 * i) != name;
                assert forall|i: int|
                    k <= i < j && dirent::ino_at(dir, 64 * i) != 0 implies #[trigger] dirent::name_at(
                    dir,
                    64 * i,
                ) != name by {
                    if i > k {
                        assert(k + 1 <= i);
                    }
                }
                assert(dirent::name_at(dir, 64 * j) == name);
            }
        }
    } else {
        assert forall|j: int|
            k <= j && 64 * j + 64 <= dir.len() && dirent::ino_at(dir, 64 * j)
                != 0 implies #[trigger] dirent::name_at(dir, 64 * j) != name by {
            assert(j < dir.len() as int / 64);
        }
    }
}

/// What is read of a file is as long as its inode says, and each byte is the one the
/// image holds in the zone of its block: one of the seven the inode names, or one that a
/// word of the indirect block names. Where no zone is named it is zero.
pub proof fn law_contents_lie_in_their_zones(img: Seq<u8>, node: Node, p: int)
    requires
        verify::content(img, node) is Some,
        node.zone.len() == 10,
        0 <= p < node.size,
    ensures
        ({
            let got = verify::content(img, node)->0;
            let ind = node.zone[7] * 4096 + (p - 28_672) / 4096 * 4;
            let z = inode::word(img, ind);
            &&& got.len() == node.size
            &&& p < 28_672 && node.zone[p / 4096] == 0 ==> got[p] == 0
            &&& p < 28_672 && node.zone[p / 4096] != 0 ==> got[p] == img[node.zone[p / 4096] * 4096
                + p % 4096]
            &&& p >= 28_672 && node.zone[7] == 0 ==> got[p] == 0
            &&& p >= 28_672 && node.zone[7] != 0 && z == 0 ==> got[p] == 0
            &&& p >= 28_672 && node.zone[7] != 0 && z != 0 ==> got[p] == img[z * 4096 + p % 4096]
            &&& p < 4_222_976
        }),
{
    reveal(verify::content);
    assert(verify::chunk_ok(img, node.zone, p / 4096));
}

/// What a bit of a bitmap counts for in its byte.
pub open spec fn counts(set: Option<bool>, weight: int) -> int {
    if set == Some(true) {
        weight
    } else {
        0
    }
}

/// A byte of a bitmap is the sum of its bits, the lowest first; bits behind the image
/// are not there.
pub proof fn law_bytes_are_sums_of_bits(img: Seq<u8>, start: u32, o: u32)
    requires
        o < 0x1000_0000,
    ensures
        verify::bit_at(img, start, (8 * o) as u32) is Some <==> start * 4096 + o < img.len(),
        start * 4096 + o < img.len() ==> img[start * 4096 + o] == counts(
            verify::bit_at(img, start, (8 * o) as u32),
            1,
        ) + counts(verify::bit_at(img, start, (8 * o + 1) as u32), 2) + counts(
            verify::bit_at(img, start, (8 * o + 2) as u32),
            4,
        ) + counts(verify::bit_at(img, start, (8 * o + 3) as u32), 8) + counts(
            verify::bit_at(img, start, (8 * o + 4) as u32),
            16,
        ) + counts(verify::bit_at(img, start, (8 * o + 5) as u32), 32) + counts(
            verify::bit_at(img, start, (8 * o + 6) as u32),
            64,
        ) + counts(verify::bit_at(img, start, (8 * o + 7) as u32), 128),
{
    if start * 4096 + o < img.len() {
        lemma_byte_is_its_bits(img[start * 4096 + o]);
        assert(forall|k: int| 0 <= k < 8 ==> (8 * o + k) / 8 == o && #[trigger] ((8 * o + k) % 8)
            == k);
    }
}

proof fn lemma_byte_is_its_bits(b: u8)
    ensures
        b == b as int / 1 % 2 + 2 * (b as int / 2 % 2) + 4 * (b as int / 4 % 2) + 8 * (b as int / 8
            % 2) + 16 * (b as int / 16 % 2) + 32 * (b as int / 32 % 2) + 64 * (b as int / 64 % 2)
            + 128 * (b as int / 128 % 2),
{
    let v = b as int;
    assert(v == 2 * (v / 2) + v % 2);
    assert(v / 2 == 2 * (v / 4) + v / 2 % 2);
    assert(v / 4 == 2 * (v / 8) + v / 4 % 2);
    assert(v / 8 == 2 * (v / 16) + v / 8 % 2);
    assert(v / 16 == 2 * (v / 32) + v / 16 % 2);
    assert(v / 32 == 2 * (v / 64) + v / 32 % 2);
    assert(v / 64 == 2 * (v / 128) + v / 64 % 2);
    assert(v / 128 == v / 128 % 2);
}

} // verus!
