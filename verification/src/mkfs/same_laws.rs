//! What an image depends on: the paths, contents and holes of its manifest, and
//! nothing else.
use vstd::prelude::*;
use crate::mkfs::image;
use crate::mkfs::manifest::Entry;
use crate::mkfs::path_laws;
use crate::mkfs::plan;

verus! {

/// Two manifests list the same paths, with the same bytes and holes, in the same
/// order.
pub open spec fn same(a: Seq<Entry>, b: Seq<Entry>) -> bool {
    &&& a.len() == b.len()
    &&& forall|i: int|
        0 <= i < a.len() ==> {
            &&& (#[trigger] a[i]).path@ == b[i].path@
            &&& a[i].bytes@ == b[i].bytes@
            &&& a[i].hole == b[i].hole
        }
}

/// The directories are the same.
proof fn lemma_same_dirs(a: Seq<Entry>, b: Seq<Entry>, n: int)
    requires
        same(a, b),
        n <= a.len(),
    ensures
        plan::dirs_to(a, n) == plan::dirs_to(b, n),
    decreases n,
{
    if n > 0 {
        lemma_same_dirs(a, b, n - 1);
        assert(a[n - 1].path@ == b[n - 1].path@);
    }
}

/// The same entries lie in each directory.
proof fn lemma_same_files(a: Seq<Entry>, b: Seq<Entry>, n: int, dir: Seq<char>)
    requires
        same(a, b),
        n <= a.len(),
    ensures
        plan::files_in(a, n, dir) == plan::files_in(b, n, dir),
    decreases n,
{
    if n > 0 {
        lemma_same_files(a, b, n - 1, dir);
        assert(a[n - 1].path@ == b[n - 1].path@);
    }
}

/// The same entries are at fault, for the same reasons.
proof fn lemma_same_fault(a: Seq<Entry>, b: Seq<Entry>, n: int)
    requires
        same(a, b),
        n <= a.len(),
    ensures
        plan::first_fault(a, n) == plan::first_fault(b, n),
    decreases n,
{
    if n > 0 {
        let i = n - 1;
        lemma_same_fault(a, b, i);
        assert(a[i].path@ == b[i].path@);
        if exists|j: int| 0 <= j < i && a[j].path@ == a[i].path@ {
            let j = choose|j: int| 0 <= j < i && a[j].path@ == a[i].path@;
            assert(b[j].path@ == b[i].path@);
        }
        if exists|j: int| 0 <= j < i && b[j].path@ == b[i].path@ {
            let j = choose|j: int| 0 <= j < i && b[j].path@ == b[i].path@;
            assert(a[j].path@ == a[i].path@);
        }
    }
}

/// Every object has the same contents and the same hole.
proof fn lemma_same_object(a: Seq<Entry>, b: Seq<Entry>, k: int)
    requires
        same(a, b),
        0 <= k < plan::object_count(a),
    ensures
        plan::object_data(a, k) == plan::object_data(b, k),
        plan::object_hole(a, k) == plan::object_hole(b, k),
{
    let n = a.len() as int;
    let nd = plan::dirs(a).len() as int;
    lemma_same_dirs(a, b, n);
    if k == 0 {
        assert(plan::root_listing(a, nd) =~= plan::root_listing(b, nd));
    } else if k <= nd {
        let dir = plan::dirs(a)[k - 1];
        let files = plan::files_in(a, n, dir);
        lemma_same_files(a, b, n, dir);
        path_laws::lemma_files_in(a, n, dir);
        let la = plan::dir_listing(a, k - 1, n);
        let lb = plan::dir_listing(b, k - 1, n);
        assert forall|j: int| 2 <= j < la.len() implies la[j] == lb[j] by {
            assert(0 <= files[j - 2] < n);
            assert(a[files[j - 2]].path@ == b[files[j - 2]].path@);
        }
        assert(la =~= lb);
    } else {
        assert(a[k - 1 - nd].bytes@ == b[k - 1 - nd].bytes@);
    }
}

/// Every object starts at the same zone, and the same one is the first too large.
proof fn lemma_same_used(a: Seq<Entry>, b: Seq<Entry>, k: int)
    requires
        same(a, b),
        k <= plan::object_count(a),
    ensures
        plan::used(a, k) == plan::used(b, k),
        plan::oversize_fault(a, k) == plan::oversize_fault(b, k),
    decreases k,
{
    if k > 0 {
        lemma_same_used(a, b, k - 1);
        lemma_same_object(a, b, k - 1);
    }
}

/// Every zone belongs to the same object.
proof fn lemma_same_owner(a: Seq<Entry>, b: Seq<Entry>, n: int, z: int)
    requires
        same(a, b),
        1 <= n <= plan::object_count(a),
    ensures
        image::owner(a, n, z) == image::owner(b, n, z),
        0 <= image::owner(a, n, z) < n,
    decreases n,
{
    if n > 1 {
        lemma_same_owner(a, b, n - 1, z);
        lemma_same_used(a, b, n - 1);
    }
}

/// Every byte the objects leave in the image is the same.
proof fn lemma_same_body(a: Seq<Entry>, b: Seq<Entry>, p: int)
    requires
        same(a, b),
        0 <= p,
    ensures
        image::body_byte(a, plan::object_count(a), p) == image::body_byte(
            b,
            plan::object_count(a),
            p,
        ),
{
    let n = plan::object_count(a);
    let k = if p / 4096 == 4 {
        (p % 4096) / 64
    } else {
        image::owner(a, n, p / 4096)
    };
    lemma_same_dirs(a, b, a.len() as int);
    lemma_same_used(a, b, n);
    lemma_same_owner(a, b, n, p / 4096);
    if k < n {
        lemma_same_object(a, b, k);
        lemma_same_used(a, b, k);
        reveal(image::object_node);
        assert(image::object_node(a, k) == image::object_node(b, k));
    }
}

/// The build is deterministic: manifests that list the same files are refused
/// for the same reason, or give the same image byte for byte.
pub proof fn law_build_is_deterministic(a: Seq<Entry>, b: Seq<Entry>)
    requires
        same(a, b),
    ensures
        plan::plan_fault(a) == plan::plan_fault(b),
        image::image_spec(a) == image::image_spec(b),
{
    let n = plan::object_count(a);
    lemma_same_dirs(a, b, a.len() as int);
    lemma_same_fault(a, b, a.len() as int);
    lemma_same_used(a, b, n);
    reveal(image::image_spec);
    assert forall|p: int| 0 <= p < 0x10_0000 implies image::image_byte(a, p) == image::image_byte(
        b,
        p,
    ) by {
        lemma_same_body(a, b, p);
    }
    assert(image::image_spec(a) =~= image::image_spec(b));
}

} // verus!
