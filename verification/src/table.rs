//! Fixed tables searched from the front: the first slot with a property, and how
//! many have it.
use vstd::prelude::*;

verus! {

/// The first slot at or after `i` with property `p`; the table's length when
/// there is none.
pub open spec fn first_from<A>(t: Seq<A>, p: spec_fn(A) -> bool, i: int) -> int
    decreases t.len() - i,
{
    if i >= t.len() || p(t[i]) {
        i
    } else {
        first_from(t, p, i + 1)
    }
}

/// The first slot with property `p`.
pub open spec fn first<A>(t: Seq<A>, p: spec_fn(A) -> bool) -> int {
    first_from(t, p, 0)
}

/// Whether some slot has property `p`.
pub open spec fn any<A>(t: Seq<A>, p: spec_fn(A) -> bool) -> bool {
    first(t, p) < t.len()
}

/// How many slots have property `p`.
pub open spec fn count<A>(t: Seq<A>, p: spec_fn(A) -> bool) -> nat
    decreases t.len(),
{
    if t.len() == 0 {
        0
    } else {
        count(t.drop_last(), p) + if p(t.last()) {
            1nat
        } else {
            0nat
        }
    }
}

proof fn lemma_first_from<A>(t: Seq<A>, p: spec_fn(A) -> bool, i: int)
    requires
        0 <= i <= t.len(),
    ensures
        i <= first_from(t, p, i) <= t.len(),
        first_from(t, p, i) < t.len() ==> p(t[first_from(t, p, i)]),
        forall|k: int| i <= k < first_from(t, p, i) ==> !p(#[trigger] t[k]),
    decreases t.len() - i,
{
    if i < t.len() && !p(t[i]) {
        lemma_first_from(t, p, i + 1);
    }
}

/// What the first slot is.
pub proof fn lemma_first<A>(t: Seq<A>, p: spec_fn(A) -> bool)
    ensures
        0 <= first(t, p) <= t.len(),
        first(t, p) < t.len() ==> p(t[first(t, p)]),
        forall|k: int| 0 <= k < first(t, p) ==> !p(#[trigger] t[k]),
{
    lemma_first_from(t, p, 0);
}

/// The slot `idx` is the first when it has the property and none before it has.
pub proof fn lemma_first_is<A>(t: Seq<A>, p: spec_fn(A) -> bool, idx: int)
    requires
        0 <= idx <= t.len(),
        idx < t.len() ==> p(t[idx]),
        forall|k: int| 0 <= k < idx ==> !p(#[trigger] t[k]),
    ensures
        first(t, p) == idx,
{
    lemma_first(t, p);
    if first(t, p) < idx {
        assert(!p(t[first(t, p)]));
    } else if idx < first(t, p) {
        assert(!p(t[idx]));
    }
}

/// Two tables that agree on a property slot by slot agree on the first.
pub proof fn lemma_first_agrees<A>(t: Seq<A>, u: Seq<A>, p: spec_fn(A) -> bool)
    requires
        t.len() == u.len(),
        forall|k: int| 0 <= k < t.len() ==> p(#[trigger] t[k]) == p(u[k]),
    ensures
        first(t, p) == first(u, p),
{
    lemma_first(t, p);
    let f = first(t, p);
    assert forall|k: int| 0 <= k < f implies !p(#[trigger] u[k]) by {
        assert(!p(t[k]));
    }
    lemma_first_is(u, p, f);
}

/// A table none of whose slots has a property counts none.
pub proof fn lemma_count_none<A>(t: Seq<A>, p: spec_fn(A) -> bool)
    requires
        forall|k: int| 0 <= k < t.len() ==> !p(#[trigger] t[k]),
    ensures
        count(t, p) == 0,
    decreases t.len(),
{
    if t.len() > 0 {
        assert(!p(t[t.len() - 1]));
        assert forall|k: int| 0 <= k < t.len() - 1 implies !p(#[trigger] t.drop_last()[k]) by {
            assert(!p(t[k]));
        }
        lemma_count_none(t.drop_last(), p);
    }
}

/// A table with a slot that has a property counts at least one.
pub proof fn lemma_count_some<A>(t: Seq<A>, p: spec_fn(A) -> bool, i: int)
    requires
        0 <= i < t.len(),
        p(t[i]),
    ensures
        count(t, p) > 0,
    decreases t.len(),
{
    if i < t.len() - 1 {
        assert(p(t.drop_last()[i]));
        lemma_count_some(t.drop_last(), p, i);
    }
}

/// How one changed slot moves the count.
pub proof fn lemma_count_update<A>(t: Seq<A>, p: spec_fn(A) -> bool, i: int, e: A)
    requires
        0 <= i < t.len(),
    ensures
        count(t.update(i, e), p) + (if p(t[i]) {
            1int
        } else {
            0
        }) == count(t, p) + (if p(e) {
            1int
        } else {
            0
        }),
    decreases t.len(),
{
    let u = t.update(i, e);
    if i == t.len() - 1 {
        assert(u.drop_last() =~= t.drop_last());
    } else {
        assert(u.drop_last() =~= t.drop_last().update(i, e));
        lemma_count_update(t.drop_last(), p, i, e);
    }
}

/// One more slot counted.
pub proof fn lemma_count_push<A>(t: Seq<A>, p: spec_fn(A) -> bool, i: int)
    requires
        0 <= i < t.len(),
    ensures
        count(t.take(i + 1), p) == count(t.take(i), p) + (if p(t[i]) {
            1int
        } else {
            0
        }),
        count(t.take(i), p) <= i,
    decreases i,
{
    assert(t.take(i + 1).drop_last() =~= t.take(i));
    if i > 0 {
        lemma_count_push(t, p, i - 1);
    }
}

/// The count is the number of slots that have the property: it is how many are left when
/// the others are taken out.
pub proof fn law_count_is_how_many<A>(t: Seq<A>, p: spec_fn(A) -> bool)
    ensures
        count(t, p) == t.filter(p).len(),
        count(t, p) <= t.len(),
    decreases t.len(),
{
    reveal(Seq::filter);
    if t.len() > 0 {
        law_count_is_how_many(t.drop_last(), p);
    }
}

/// A search finds a slot exactly when some slot has the property.
pub proof fn law_search_finds_what_is_there<A>(t: Seq<A>, p: spec_fn(A) -> bool)
    ensures
        any(t, p) <==> exists|i: int| 0 <= i < t.len() && p(#[trigger] t[i]),
{
    lemma_first(t, p);
    if !any(t, p) {
        assert forall|i: int| 0 <= i < t.len() implies !p(#[trigger] t[i]) by {}
    }
}

} // verus!
