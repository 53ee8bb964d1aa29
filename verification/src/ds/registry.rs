//! The name directory: a fixed table of keys and the endpoints they name.
use vstd::prelude::*;
use crate::abi::callnr::SYS_GETINFO_NAME_LEN;
use crate::abi::errno::{EINVAL, ENOMEM, OK};
use crate::table;
use crate::text::bytes_eq;

verus! {

/// Bytes in a key: a NUL-padded server name.
pub const KEY_LEN: usize = SYS_GETINFO_NAME_LEN;

/// Keys the directory can hold.
pub const CAP: usize = 16;

/// One binding. A slot not in use is free.
#[derive(Copy, Clone)]
pub struct Entry {
    pub key: [u8; 16],
    pub endpoint: i32,
    pub in_use: bool,
}

impl Entry {
    /// A free slot.
    pub fn empty() -> (e: Entry)
        ensures
            !e.in_use,
            e.endpoint == 0,
            e.key@ == Seq::new(16, |i: int| 0u8),
    {
        let e = Entry { key: [0u8;16], endpoint: 0, in_use: false };
        assert(e.key@ =~= Seq::new(16, |i: int| 0u8));
        e
    }
}

/// The slots bound to `key`.
pub open spec fn binds(key: Seq<u8>) -> spec_fn(Entry) -> bool {
    |e: Entry| e.in_use && e.key@ == key
}

/// The free slots.
pub open spec fn free() -> spec_fn(Entry) -> bool {
    |e: Entry| !e.in_use
}

/// The slots in use.
pub open spec fn used() -> spec_fn(Entry) -> bool {
    |e: Entry| e.in_use
}

/// An all-NUL key: an unset name.
pub open spec fn empty_key(key: Seq<u8>) -> bool {
    forall|i: int| 0 <= i < key.len() ==> key[i] == 0
}

/// The endpoint bound to `key`.
pub open spec fn lookup(t: Seq<Entry>, key: Seq<u8>) -> Option<i32> {
    if table::any(t, binds(key)) {
        Some(t[table::first(t, binds(key))].endpoint)
    } else {
        None
    }
}

/// What publishing `key` returns.
pub open spec fn publish_code(t: Seq<Entry>, key: Seq<u8>) -> i32 {
    if empty_key(key) {
        EINVAL
    } else if table::any(t, binds(key)) || table::any(t, free()) {
        OK
    } else {
        ENOMEM
    }
}

/// The slot publishing `key` writes: the one bound to it, or else the first free
/// one.
pub open spec fn publish_slot(t: Seq<Entry>, key: Seq<u8>) -> int {
    if table::any(t, binds(key)) {
        table::first(t, binds(key))
    } else {
        table::first(t, free())
    }
}

/// `after` is `before` with `key` bound to `ep` and every other slot untouched.
pub open spec fn published(before: Seq<Entry>, after: Seq<Entry>, key: Seq<u8>, ep: i32) -> bool {
    let i = publish_slot(before, key);
    &&& after.len() == before.len()
    &&& after[i].in_use
    &&& after[i].key@ == key
    &&& after[i].endpoint == ep
    &&& forall|k: int| 0 <= k < before.len() && k != i ==> after[k] == #[trigger] before[k]
}

/// No two slots are bound to one key, and none to the empty key.
pub open spec fn wf(t: Seq<Entry>) -> bool {
    &&& forall|i: int, j: int|
        0 <= i < j < t.len() && (#[trigger] t[i]).in_use && (#[trigger] t[j]).in_use ==> t[i].key@
            != t[j].key@
    &&& forall|i: int| 0 <= i < t.len() && (#[trigger] t[i]).in_use ==> !empty_key(t[i].key@)
}

/// Whether `key` is all NUL.
pub fn key_is_empty(key: &[u8; 16]) -> (b: bool)
    ensures
        b == empty_key(key@),
{
    let mut i: usize = 0;
    while i < 16
        invariant
            i <= 16,
            forall|k: int| 0 <= k < i ==> key@[k] == 0,
        decreases 16 - i,
    {
        if key[i] != 0 {
            return false;
        }
        i = i + 1;
    }
    true
}

/// The first slot bound to `key`, or [`CAP`].
fn find_key(t: &[Entry; 16], key: &[u8; 16]) -> (i: usize)
    ensures
        i == table::first(t@, binds(key@)),
        i <= 16,
{
    let mut i: usize = 0;
    while i < 16
        invariant
            i <= 16,
            table::first(t@, binds(key@)) == table::first_from(t@, binds(key@), i as int),
        decreases 16 - i,
    {
        if t[i].in_use && bytes_eq(t[i].key.as_slice(), key.as_slice()) {
            return i;
        }
        i = i + 1;
    }
    i
}

/// Bind `key` to `ep`. Publishing an existing key updates its endpoint in place.
pub fn publish_in(t: &mut [Entry; 16], key: &[u8; 16], ep: i32) -> (rc: i32)
    ensures
        rc == publish_code(old(t)@, key@),
        rc == OK ==> published(old(t)@, final(t)@, key@, ep),
        rc != OK ==> final(t)@ == old(t)@,
{
    if key_is_empty(key) {
        return EINVAL;
    }
    proof {
        table::lemma_first(t@, binds(key@));
        table::lemma_first(t@, free());
    }
    let i: usize = find_key(t, key);
    if i < 16 {
        t[i].endpoint = ep;
        return OK;
    }
    let mut j: usize = 0;
    while j < 16
        invariant
            j <= 16,
            t@ == old(t)@,
            table::first(t@, free()) == table::first_from(t@, free(), j as int),
            !empty_key(key@),
            !table::any(t@, binds(key@)),
        decreases 16 - j,
    {
        if !t[j].in_use {
            t[j] = Entry { key: *key, endpoint: ep, in_use: true };
            return OK;
        }
        j = j + 1;
    }
    ENOMEM
}

/// The endpoint bound to `key`.
pub fn retrieve_in(t: &[Entry; 16], key: &[u8; 16]) -> (r: Option<i32>)
    ensures
        r == lookup(t@, key@),
{
    let i: usize = find_key(t, key);
    if i < 16 {
        Some(t[i].endpoint)
    } else {
        None
    }
}

/// Whether `key` is bound.
pub fn check_in(t: &[Entry; 16], key: &[u8; 16]) -> (b: bool)
    ensures
        b == (lookup(t@, key@) is Some),
{
    find_key(t, key) < 16
}

/// The directory a server keeps.
pub struct Registry {
    pub entries: [Entry; 16],
}

impl Registry {
    /// The directory's keys are unique.
    pub open spec fn wf(self) -> bool {
        wf(self.entries@)
    }

    /// An empty directory.
    pub fn new() -> (r: Registry)
        ensures
            r.wf(),
            forall|i: int| 0 <= i < 16 ==> !(#[trigger] r.entries@[i]).in_use,
            table::count(r.entries@, used()) == 0,
            forall|key: Seq<u8>| lookup(r.entries@, key) is None,
            forall|key: Seq<u8>|
                !empty_key(key) ==> #[trigger] publish_code(r.entries@, key) == OK,
    {
        let r = Registry { entries: [Entry::empty();16] };
        proof {
            table::lemma_first_is(r.entries@, free(), 0);
            table::lemma_count_none(r.entries@, used());
        }
        assert forall|key: Seq<u8>| lookup(r.entries@, key) is None by {
            table::lemma_first(r.entries@, binds(key));
        }
        r
    }
}

/// Bind `key` to `ep` in the directory.
pub fn publish(r: &mut Registry, key: &[u8; 16], ep: i32) -> (rc: i32)
    requires
        old(r).wf(),
    ensures
        final(r).wf(),
        rc == publish_code(old(r).entries@, key@),
        rc == OK ==> published(old(r).entries@, final(r).entries@, key@, ep),
        rc != OK ==> final(r).entries@ == old(r).entries@,
{
    let ghost before = r.entries@;
    let rc: i32 = publish_in(&mut r.entries, key, ep);
    proof {
        if rc == OK {
            law_keys_stay_unique(before, r.entries@, key@, ep);
        }
    }
    rc
}

/// The endpoint bound to `key` in the directory.
pub fn retrieve(r: &Registry, key: &[u8; 16]) -> (ep: Option<i32>)
    ensures
        ep == lookup(r.entries@, key@),
{
    retrieve_in(&r.entries, key)
}

/// Whether `key` is bound in the directory.
pub fn check(r: &Registry, key: &[u8; 16]) -> (b: bool)
    ensures
        b == (lookup(r.entries@, key@) is Some),
{
    check_in(&r.entries, key)
}

/// Publishing keeps the keys unique.
pub proof fn law_keys_stay_unique(t: Seq<Entry>, u: Seq<Entry>, key: Seq<u8>, ep: i32)
    requires
        wf(t),
        publish_code(t, key) == OK,
        published(t, u, key, ep),
    ensures
        wf(u),
{
    table::lemma_first(t, binds(key));
    table::lemma_first(t, free());
    let s = publish_slot(t, key);
    assert forall|i: int, j: int|
        0 <= i < j < u.len() && (#[trigger] u[i]).in_use && (#[trigger] u[j]).in_use implies u[i].key@
        != u[j].key@ by {
        if i != s && j != s {
            assert(u[i] == t[i] && u[j] == t[j]);
        } else {
            let o = if i == s {
                j
            } else {
                i
            };
            assert(u[o] == t[o]);
            assert(t[s].in_use ==> t[s].key@ == key);
            if t[o].key@ == key {
                assert(binds(key)(t[o]));
            }
        }
    }
    assert forall|i: int| 0 <= i < u.len() && (#[trigger] u[i]).in_use implies !empty_key(
        u[i].key@,
    ) by {
        if i != s {
            assert(u[i] == t[i]);
        }
    }
}

/// What was published is what a lookup finds, and no other key's answer changes.
pub proof fn law_publish_then_retrieve(t: Seq<Entry>, u: Seq<Entry>, key: Seq<u8>, ep: i32)
    requires
        publish_code(t, key) == OK,
        published(t, u, key, ep),
    ensures
        lookup(u, key) == Some(ep),
        forall|other: Seq<u8>| other != key ==> lookup(u, other) == lookup(t, other),
{
    table::lemma_first(t, binds(key));
    table::lemma_first(t, free());
    let s = publish_slot(t, key);
    assert forall|k: int| 0 <= k < s implies !binds(key)(#[trigger] u[k]) by {
        assert(u[k] == t[k]);
    }
    table::lemma_first_is(u, binds(key), s);
    assert forall|other: Seq<u8>| other != key implies lookup(u, other) == lookup(t, other) by {
        assert forall|k: int| 0 <= k < t.len() implies binds(other)(#[trigger] t[k]) == binds(
            other,
        )(u[k]) by {
            if k != s {
                assert(u[k] == t[k]);
            }
        }
        table::lemma_first_agrees(t, u, binds(other));
        table::lemma_first(t, binds(other));
    }
}

/// Publishing a bound key takes no slot; publishing a new one takes exactly one.
pub proof fn law_publish_takes_one_slot(t: Seq<Entry>, u: Seq<Entry>, key: Seq<u8>, ep: i32)
    requires
        publish_code(t, key) == OK,
        published(t, u, key, ep),
    ensures
        table::count(u, used()) == table::count(t, used()) + (if lookup(t, key) is Some {
            0int
        } else {
            1
        }),
{
    table::lemma_first(t, binds(key));
    table::lemma_first(t, free());
    let s = publish_slot(t, key);
    assert(u =~= t.update(s, u[s]));
    table::lemma_count_update(t, used(), s, u[s]);
}

/// A lookup answers from a slot that holds the name, and answers exactly when there is
/// one.
pub proof fn law_lookup_reads_a_slot(t: Seq<Entry>, key: Seq<u8>)
    requires
        wf(t),
    ensures
        lookup(t, key) is Some <==> exists|k: int|
            0 <= k < t.len() && (#[trigger] t[k]).in_use && t[k].key@ == key,
        forall|k: int|
            0 <= k < t.len() && (#[trigger] t[k]).in_use && t[k].key@ == key ==> lookup(t, key)
                == Some(t[k].endpoint),
{
    table::lemma_first(t, binds(key));
    let f = table::first(t, binds(key));
    if f < t.len() {
        assert(t[f].in_use && t[f].key@ == key);
    }
    assert forall|k: int| 0 <= k < t.len() && (#[trigger] t[k]).in_use && t[k].key@ == key implies f
        == k by {
        if f > k {
            assert(!binds(key)(t[k]));
        } else if f < k {
            assert(t[f].in_use);
        }
    }
}

/// A name is refused exactly when it is empty, or when it is new and every slot is
/// taken; the two are told apart.
pub proof fn law_refused_only_for_cause(t: Seq<Entry>, key: Seq<u8>)
    requires
        wf(t),
        key.len() == 16,
    ensures
        ({
            let unset = forall|i: int| 0 <= i < 16 ==> key[i] == 0;
            let full = forall|k: int| 0 <= k < t.len() ==> (#[trigger] t[k]).in_use;
            &&& unset ==> publish_code(t, key) == EINVAL
            &&& !unset && full && lookup(t, key) is None ==> publish_code(t, key) == ENOMEM
            &&& !unset && (!full || lookup(t, key) is Some) ==> publish_code(t, key) == OK
        }),
{
    table::lemma_first(t, free());
    if table::any(t, free()) {
        assert(!t[table::first(t, free())].in_use);
    } else {
        assert forall|k: int| 0 <= k < t.len() implies (#[trigger] t[k]).in_use by {
            assert(!free()(t[k]));
        }
    }
}

} // verus!
