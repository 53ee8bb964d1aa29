//! What every operation on a process's regions keeps.
use vstd::prelude::*;
use crate::abi::uspace::{USER_STACK_BASE, USER_STACK_TOP};
use crate::table;
use crate::vm::region;
use crate::vm::region::{Kind, Region, Space, HEAP_BASE, MMAP_BASE, MMAP_GAP, REGION_LIMIT};

verus! {

/// A process that has touched nothing.
pub open spec fn empty_space() -> Space {
    Space {
        regions: Seq::new(16, |i: int| Region::empty_spec()),
        heap_origin: HEAP_BASE,
        mmap_next: MMAP_BASE,
    }
}

/// One region is in order: a heap starts at the origin, a mapping lies below
/// where the arena stands, neither passes the limit, and the stack is the stack.
pub open spec fn region_ok(s: Space, r: Region) -> bool {
    match r.kind {
        Kind::Unused => true,
        Kind::Heap => r.start == s.heap_origin && r.start <= r.end <= REGION_LIMIT,
        Kind::Mmap => r.start < r.end <= s.mmap_next && r.end <= REGION_LIMIT,
        Kind::Stack => r == region::stack_region(),
    }
}

/// Two regions of one process: there is one heap and one stack, and mappings do
/// not overlap.
pub open spec fn apart(a: Region, b: Region) -> bool {
    &&& a.kind == Kind::Heap ==> b.kind != Kind::Heap
    &&& a.kind == Kind::Stack ==> b.kind != Kind::Stack
    &&& a.kind == Kind::Mmap && b.kind == Kind::Mmap ==> a.end <= b.start || b.end <= a.start
}

/// A process's regions are in order.
pub open spec fn wf(s: Space) -> bool {
    &&& s.regions.len() == 16
    &&& forall|i: int| 0 <= i < 16 ==> region_ok(s, #[trigger] s.regions[i])
    &&& forall|i: int, j: int|
        0 <= i < j < 16 ==> apart(#[trigger] s.regions[i], #[trigger] s.regions[j])
}

/// A process that was never executed from an image has the same gap between its
/// heap and its arena as one that was, and both origins lie below the limit.
pub proof fn law_origins()
    ensures
        MMAP_BASE == HEAP_BASE + MMAP_GAP,
        HEAP_BASE < MMAP_BASE < REGION_LIMIT < USER_STACK_BASE,
{
}

/// A process that has touched nothing is in order.
pub proof fn law_empty_wf()
    ensures
        wf(empty_space()),
{
}

proof fn lemma_kind(s: Space, k: Kind)
    ensures
        0 <= table::first(s.regions, region::of_kind(k)) <= s.regions.len(),
        table::any(s.regions, region::of_kind(k)) ==> s.regions[table::first(
            s.regions,
            region::of_kind(k),
        )].kind == k,
        !table::any(s.regions, region::of_kind(k)) ==> forall|i: int|
            0 <= i < s.regions.len() ==> (#[trigger] s.regions[i]).kind != k,
{
    let p = region::of_kind(k);
    table::lemma_first(s.regions, p);
    if !table::any(s.regions, p) {
        assert forall|i: int| 0 <= i < s.regions.len() implies (#[trigger] s.regions[i]).kind
            != k by {
            assert(!p(s.regions[i]));
        }
    }
}

proof fn lemma_with_wf(s: Space, t: Space, i: int)
    requires
        wf(s),
        0 <= i < 16,
        t.regions == s.regions.update(i, t.regions[i]),
        t.heap_origin == s.heap_origin,
        t.mmap_next >= s.mmap_next,
        region_ok(t, t.regions[i]),
        forall|k: int|
            0 <= k < 16 && k != i ==> apart(#[trigger] s.regions[k], t.regions[i]),
    ensures
        wf(t),
{
    assert forall|k: int| 0 <= k < 16 implies region_ok(t, #[trigger] t.regions[k]) by {
        if k != i {
            assert(region_ok(s, s.regions[k]));
            assert(t.regions[k] == s.regions[k]);
        }
    }
    assert forall|k: int, j: int| 0 <= k < j < 16 implies apart(
        #[trigger] t.regions[k],
        #[trigger] t.regions[j],
    ) by {
        if k != i && j != i {
            assert(t.regions[k] == s.regions[k] && t.regions[j] == s.regions[j]);
            assert(apart(s.regions[k], s.regions[j]));
        } else if k != i {
            assert(t.regions[k] == s.regions[k]);
            assert(apart(s.regions[k], t.regions[i]));
        } else {
            assert(t.regions[j] == s.regions[j]);
            assert(apart(s.regions[j], t.regions[i]));
        }
    }
}

/// Setting the break keeps the regions in order.
pub proof fn law_brk_wf(s: Space, b: u64)
    requires
        wf(s),
    ensures
        region::brk_result(s, b) is Ok ==> wf(
            region::brk_space(s, region::brk_result(s, b)->Ok_0),
        ),
{
    lemma_kind(s, Kind::Heap);
    lemma_kind(s, Kind::Unused);
    if region::brk_result(s, b) is Ok {
        let end = region::brk_result(s, b)->Ok_0;
        let t = region::brk_space(s, end);
        let h = table::first(s.regions, region::of_kind(Kind::Heap));
        let i = if h < s.regions.len() {
            h
        } else {
            table::first(s.regions, region::of_kind(Kind::Unused))
        };
        assert(region_ok(s, s.regions[i]));
        assert forall|k: int| 0 <= k < 16 && k != i implies apart(
            #[trigger] s.regions[k],
            t.regions[i],
        ) by {
            if h < s.regions.len() {
                if k < i {
                    assert(apart(s.regions[k], s.regions[i]));
                } else {
                    assert(apart(s.regions[i], s.regions[k]));
                }
            }
        }
        lemma_with_wf(s, t, i);
    }
}

/// Mapping keeps the regions in order: a new mapping overlaps no other.
pub proof fn law_mmap_wf(s: Space, len: u64)
    requires
        wf(s),
    ensures
        region::mmap_result(s, len) is Ok ==> wf(region::mmap_space(s, len)),
{
    lemma_kind(s, Kind::Unused);
    if region::mmap_result(s, len) is Ok {
        let t = region::mmap_space(s, len);
        let i = table::first(s.regions, region::of_kind(Kind::Unused));
        assert forall|k: int| 0 <= k < 16 && k != i implies apart(
            #[trigger] s.regions[k],
            t.regions[i],
        ) by {
            assert(region_ok(s, s.regions[k]));
        }
        lemma_with_wf(s, t, i);
    }
}

/// Unmapping keeps the regions in order, and sweeps only addresses of the mapping
/// it drops.
pub proof fn law_munmap_wf(s: Space, addr: u64, len: u64)
    requires
        wf(s),
    ensures
        region::munmap_result(s, addr, len) matches Ok((start, end)) ==> {
            &&& wf(region::munmap_space(s, addr))
            &&& start == addr
            &&& start < end <= REGION_LIMIT
            &&& forall|a: u64|
                start <= a < end ==> s.regions[table::first(
                    s.regions,
                    region::mapped_at(addr),
                )].covers(a)
        },
{
    table::lemma_first(s.regions, region::mapped_at(addr));
    if region::munmap_result(s, addr, len) is Ok {
        let i = table::first(s.regions, region::mapped_at(addr));
        let t = region::munmap_space(s, addr);
        assert(region_ok(s, s.regions[i]));
        lemma_with_wf(s, t, i);
    }
}

/// A freshly executed image is in order.
pub proof fn law_exec_wf(s: Space, image_end: u64)
    requires
        s.regions.len() == 16,
    ensures
        wf(region::exec_space(s, image_end)),
{
}

/// Recording the stack keeps the regions in order.
pub proof fn law_stack_wf(s: Space)
    requires
        wf(s),
    ensures
        wf(region::stack_space(s)),
{
    lemma_kind(s, Kind::Stack);
    lemma_kind(s, Kind::Unused);
    let t = region::stack_space(s);
    if table::any(s.regions, region::of_kind(Kind::Stack)) {
        let i = table::first(s.regions, region::of_kind(Kind::Stack));
        assert forall|k: int| 0 <= k < 16 && k != i implies apart(
            #[trigger] s.regions[k],
            t.regions[i],
        ) by {
            if k < i {
                assert(apart(s.regions[k], s.regions[i]));
            } else {
                assert(apart(s.regions[i], s.regions[k]));
            }
        }
        lemma_with_wf(s, t, i);
    } else if table::any(s.regions, region::of_kind(Kind::Unused)) {
        lemma_with_wf(s, t, table::first(s.regions, region::of_kind(Kind::Unused)));
    }
}

/// The guard page is nobody's: no break and no mapping can ever make a stack
/// overflow resolvable.
pub proof fn law_guard_page_is_never_covered(s: Space, addr: u64)
    requires
        wf(s),
        REGION_LIMIT <= addr < USER_STACK_BASE,
    ensures
        !s.contains(addr),
{
    assert forall|i: int| 0 <= i < s.regions.len() implies !region::covering(addr)(
        #[trigger] s.regions[i],
    ) by {
        assert(region_ok(s, s.regions[i]));
    }
    table::lemma_first_is(s.regions, region::covering(addr), s.regions.len() as int);
}

proof fn lemma_contains(s: Space, i: int, addr: u64)
    requires
        0 <= i < s.regions.len(),
        s.regions[i].covers(addr),
    ensures
        s.contains(addr),
{
    table::lemma_first(s.regions, region::covering(addr));
    if !s.contains(addr) {
        assert(!region::covering(addr)(s.regions[i]));
    }
}

/// A granted break covers the heap from its origin up to the break, page-rounded
/// and half-open.
pub proof fn law_brk_covers(s: Space, b: u64, addr: u64)
    requires
        wf(s),
        region::brk_result(s, b) is Ok,
        s.heap_origin <= addr < region::brk_result(s, b)->Ok_0,
    ensures
        region::brk_space(s, region::brk_result(s, b)->Ok_0).contains(addr),
        b <= region::brk_result(s, b)->Ok_0 < b + 4096,
{
    lemma_kind(s, Kind::Heap);
    lemma_kind(s, Kind::Unused);
    let end = region::brk_result(s, b)->Ok_0;
    let t = region::brk_space(s, end);
    let h = table::first(s.regions, region::of_kind(Kind::Heap));
    let i = if h < s.regions.len() {
        h
    } else {
        table::first(s.regions, region::of_kind(Kind::Unused))
    };
    assert(region_ok(s, s.regions[i]));
    lemma_contains(t, i, addr);
}

/// A mapping covers every byte asked for, from the address returned on.
pub proof fn law_mmap_covers(s: Space, len: u64, addr: u64)
    requires
        region::mmap_result(s, len) is Ok,
        region::mmap_result(s, len)->Ok_0 <= addr < region::mmap_result(s, len)->Ok_0 + len,
    ensures
        region::mmap_space(s, len).contains(addr),
{
    lemma_kind(s, Kind::Unused);
    let t = region::mmap_space(s, len);
    lemma_contains(t, table::first(s.regions, region::of_kind(Kind::Unused)), addr);
}

/// Two mappings made one after the other do not overlap, whatever was unmapped in
/// between: the arena never moves back.
pub proof fn law_arena_only_grows(s: Space, len: u64, later: Space, len2: u64, addr: u64)
    requires
        region::mmap_result(s, len) is Ok,
        later.mmap_next >= region::mmap_space(s, len).mmap_next,
        region::mmap_result(later, len2) is Ok,
    ensures
        region::mmap_result(later, len2)->Ok_0 >= region::mmap_result(s, len)->Ok_0 + len,
        region::mmap_space(later, len2).mmap_next > later.mmap_next,
        region::munmap_space(later, addr).mmap_next == later.mmap_next,
{
}

/// Unmapping touches no slot but the mapping's own: in particular a heap and a
/// stack survive it.
pub proof fn law_munmap_spares_the_rest(s: Space, addr: u64, k: int)
    requires
        0 <= k < s.regions.len(),
        !region::mapped_at(addr)(s.regions[k]),
        table::any(s.regions, region::mapped_at(addr)),
    ensures
        region::munmap_space(s, addr).regions[k] == s.regions[k],
{
    table::lemma_first(s.regions, region::mapped_at(addr));
}

/// Nothing of the previous image survives an exec, and the new heap begins at the
/// image's end.
pub proof fn law_exec_starts_over(s: Space, image_end: u64, addr: u64, b: u64)
    ensures
        !region::exec_space(s, image_end).contains(addr),
        b < image_end ==> region::brk_result(region::exec_space(s, image_end), b) == Err::<
            u64,
            i32,
        >(crate::abi::errno::EINVAL),
        region::exec_space(s, image_end).heap_origin == image_end,
        image_end + MMAP_GAP <= u64::MAX ==> region::exec_space(s, image_end).mmap_next
            == image_end + MMAP_GAP,
{
    let t = region::exec_space(s, image_end);
    table::lemma_first_is(t.regions, region::covering(addr), t.regions.len() as int);
}

/// Recording the stack twice takes one slot, and covers exactly the stack.
pub proof fn law_stack_recorded_once(s: Space, addr: u64)
    requires
        table::any(s.regions, region::of_kind(Kind::Stack)) || table::any(
            s.regions,
            region::of_kind(Kind::Unused),
        ),
    ensures
        region::stack_space(region::stack_space(s)) == region::stack_space(s),
        USER_STACK_BASE <= addr < USER_STACK_TOP ==> region::stack_space(s).contains(addr),
{
    lemma_kind(s, Kind::Stack);
    lemma_kind(s, Kind::Unused);
    let t = region::stack_space(s);
    let i = if table::any(s.regions, region::of_kind(Kind::Stack)) {
        table::first(s.regions, region::of_kind(Kind::Stack))
    } else {
        table::first(s.regions, region::of_kind(Kind::Unused))
    };
    assert(t.regions[i] == region::stack_region());
    table::lemma_first(s.regions, region::of_kind(Kind::Stack));
    assert forall|k: int| 0 <= k < i implies !region::of_kind(Kind::Stack)(
        #[trigger] t.regions[k],
    ) by {
        assert(t.regions[k] == s.regions[k]);
        assert(!region::of_kind(Kind::Stack)(s.regions[k]));
    }
    table::lemma_first_is(t.regions, region::of_kind(Kind::Stack), i);
    assert(region::stack_space(t) =~= t);
    if USER_STACK_BASE <= addr < USER_STACK_TOP {
        lemma_contains(t, i, addr);
    }
}

} // verus!
