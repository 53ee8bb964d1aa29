//! What memory a process has after each request, address by address, and so which of
//! its faults are resolved.
use vstd::prelude::*;
use crate::abi::callnr::{
    VMCTL_CLEAR_PAGEFAULT, VMCTL_PROT_WRITE, VMCTL_PT_MAP, VM_BRK, VM_FORK, VM_MMAP,
    VM_MUNMAP, VM_PAGEFAULT,
};
use crate::abi::endpoint::Endpoint;
use crate::abi::errno::{EINVAL, ENOMEM, OK};
use crate::abi::message::Message;
use crate::rt::payload;
use crate::table;
use crate::vm::laws;
use crate::vm::region;
use crate::vm::region::{Kind, RegionTable, Space, REGION_LIMIT};
use crate::vm::server;
use crate::vm::server::{Request, Sweep};

verus! {

/// An address belongs to a process exactly when one of its regions holds it.
pub proof fn law_contains_is_some_region(s: Space, addr: u64)
    ensures
        s.contains(addr) <==> exists|i: int|
            0 <= i < s.regions.len() && (#[trigger] s.regions[i]).kind != Kind::Unused
                && s.regions[i].start <= addr < s.regions[i].end,
{
    table::lemma_first(s.regions, region::covering(addr));
    let f = table::first(s.regions, region::covering(addr));
    if f < s.regions.len() {
        assert(s.regions[f].covers(addr));
    } else {
        assert forall|i: int| 0 <= i < s.regions.len() implies !((#[trigger] s.regions[i]).kind
            != Kind::Unused && s.regions[i].start <= addr < s.regions[i].end) by {
            assert(!region::covering(addr)(s.regions[i]));
        }
    }
}

/// A size is rounded up to whole pages, and by less than one.
pub proof fn law_rounded_to_whole_pages(v: int)
    ensures
        region::page_up(v) % 4096 == 0,
        v <= region::page_up(v) < v + 4096,
{
}

/// The first slot of a kind.
proof fn lemma_kind(s: Space, k: Kind)
    ensures
        table::any(s.regions, region::of_kind(k)) <==> exists|i: int|
            0 <= i < s.regions.len() && (#[trigger] s.regions[i]).kind == k,
        0 <= table::first(s.regions, region::of_kind(k)),
        table::any(s.regions, region::of_kind(k)) ==> s.regions[table::first(
            s.regions,
            region::of_kind(k),
        )].kind == k,
{
    table::lemma_first(s.regions, region::of_kind(k));
    if !table::any(s.regions, region::of_kind(k)) {
        assert forall|i: int| 0 <= i < s.regions.len() implies (#[trigger] s.regions[i]).kind != k by {
            assert(!region::of_kind(k)(s.regions[i]));
        }
    } else {
        assert(s.regions[table::first(s.regions, region::of_kind(k))].kind == k);
    }
}

/// When a break is refused: below the origin or past the last page, `EINVAL`; past the
/// limit, `ENOMEM`; and `EINVAL` again when there is no heap yet and no slot for one.
/// Otherwise the break is where it was asked for, rounded up to a page.
pub proof fn law_break_is_refused_only_for_cause(s: Space, b: u64)
    ensures
        ({
            let r = region::brk_result(s, b);
            let room = exists|i: int|
                0 <= i < s.regions.len() && ((#[trigger] s.regions[i]).kind == Kind::Heap
                    || s.regions[i].kind == Kind::Unused);
            let bad = b < s.heap_origin || b + 4095 > u64::MAX;
            let past = region::page_up(b as int) > REGION_LIMIT;
            &&& bad ==> r == Err::<u64, i32>(EINVAL)
            &&& !bad && past ==> r == Err::<u64, i32>(ENOMEM)
            &&& !bad && !past && !room ==> r == Err::<u64, i32>(EINVAL)
            &&& !bad && !past && room ==> (r matches Ok(end) && end % 4096 == 0 && b <= end < b
                + 4096)
        }),
{
    lemma_kind(s, Kind::Heap);
    lemma_kind(s, Kind::Unused);
}

/// After a break has been granted the heap reaches from its origin to the break and no
/// further, and every address outside it is as it was.
pub proof fn law_break_moves_the_heap_alone(s: Space, b: u64, addr: u64)
    requires
        laws::wf(s),
        region::brk_result(s, b) is Ok,
    ensures
        ({
            let end = region::brk_result(s, b)->Ok_0;
            let t = region::brk_space(s, end);
            let elsewhere = exists|i: int|
                0 <= i < 16 && (#[trigger] s.regions[i]).kind != Kind::Heap && s.regions[i].covers(
                    addr,
                );
            &&& t.contains(addr) <==> s.heap_origin <= addr < end || elsewhere
            &&& t.heap_origin == s.heap_origin
            &&& t.mmap_next == s.mmap_next
        }),
{
    lemma_kind(s, Kind::Heap);
    lemma_kind(s, Kind::Unused);
    let end = region::brk_result(s, b)->Ok_0;
    let t = region::brk_space(s, end);
    let h = table::first(s.regions, region::of_kind(Kind::Heap));
    let i = if h < s.regions.len() {
        h
    } else {
        table::first(s.regions, region::of_kind(Kind::Unused))
    };
    law_contains_is_some_region(t, addr);
    assert(laws::region_ok(s, s.regions[i]));
    assert(t.regions[i].start == s.heap_origin && t.regions[i].end == end);
    assert(t.regions[i].kind == Kind::Heap);
    assert forall|k: int| 0 <= k < 16 && k != i implies #[trigger] t.regions[k] == s.regions[k]
        && s.regions[k].kind != Kind::Heap by {
        if h < s.regions.len() {
            if k < i {
                assert(laws::apart(s.regions[k], s.regions[i]));
            } else {
                assert(laws::apart(s.regions[i], s.regions[k]));
            }
        }
    }
    if t.contains(addr) && !(s.heap_origin <= addr < end) {
        let k = choose|k: int|
            0 <= k < t.regions.len() && (#[trigger] t.regions[k]).kind != Kind::Unused
                && t.regions[k].start <= addr < t.regions[k].end;
        assert(k != i);
        assert(s.regions[k].covers(addr));
    }
    if exists|k: int|
        0 <= k < 16 && (#[trigger] s.regions[k]).kind != Kind::Heap && s.regions[k].covers(addr) {
        let k = choose|k: int|
            0 <= k < 16 && (#[trigger] s.regions[k]).kind != Kind::Heap && s.regions[k].covers(addr);
        assert(k != i);
        assert(t.regions[k] == s.regions[k]);
    }
}

/// When a mapping is refused: for no bytes or a size that wraps, `EINVAL`; for one that
/// does not fit below the limit, or when every slot is taken, `ENOMEM`. Otherwise it is
/// where the arena stood.
pub proof fn law_mapping_is_refused_only_for_cause(s: Space, len: u64)
    ensures
        ({
            let r = region::mmap_result(s, len);
            let room = exists|i: int|
                0 <= i < s.regions.len() && (#[trigger] s.regions[i]).kind == Kind::Unused;
            let bad = len == 0 || len + 4095 > u64::MAX || s.mmap_next + region::page_up(len as int)
                > u64::MAX;
            let past = s.mmap_next + region::page_up(len as int) > REGION_LIMIT;
            &&& bad ==> r == Err::<u64, i32>(EINVAL)
            &&& !bad && (past || !room) ==> r == Err::<u64, i32>(ENOMEM)
            &&& !bad && !past && room ==> r == Ok::<u64, i32>(s.mmap_next)
        }),
{
    lemma_kind(s, Kind::Unused);
}

/// A mapping adds its own pages, whole ones, and no other address; the next mapping
/// starts right after it.
pub proof fn law_mapping_adds_its_pages(s: Space, len: u64, addr: u64)
    requires
        region::mmap_result(s, len) is Ok,
    ensures
        ({
            let start = region::mmap_result(s, len)->Ok_0;
            let t = region::mmap_space(s, len);
            &&& t.contains(addr) <==> s.contains(addr) || start <= addr < start + region::page_up(
                len as int,
            )
            &&& start == s.mmap_next
            &&& t.mmap_next == start + region::page_up(len as int)
            &&& t.heap_origin == s.heap_origin
        }),
{
    lemma_kind(s, Kind::Unused);
    let t = region::mmap_space(s, len);
    let i = table::first(s.regions, region::of_kind(Kind::Unused));
    law_contains_is_some_region(s, addr);
    law_contains_is_some_region(t, addr);
    assert(s.regions[i].kind == Kind::Unused);
    assert(t.regions[i].kind == Kind::Mmap);
    if s.contains(addr) {
        let k = choose|k: int|
            0 <= k < s.regions.len() && (#[trigger] s.regions[k]).kind != Kind::Unused
                && s.regions[k].start <= addr < s.regions[k].end;
        assert(t.regions[k] == s.regions[k]);
    }
    if t.contains(addr) {
        let k = choose|k: int|
            0 <= k < t.regions.len() && (#[trigger] t.regions[k]).kind != Kind::Unused
                && t.regions[k].start <= addr < t.regions[k].end;
        if k != i {
            assert(t.regions[k] == s.regions[k]);
        }
    }
}

/// When an unmapping is refused: for no bytes or a size that wraps, or when no mapping
/// starts at that address. Otherwise what is swept starts there and is what was asked
/// for, in whole pages, but never more than the mapping.
pub proof fn law_unmapping_is_refused_only_for_cause(s: Space, addr: u64, len: u64)
    ensures
        ({
            let r = region::munmap_result(s, addr, len);
            let known = exists|i: int|
                0 <= i < s.regions.len() && (#[trigger] s.regions[i]).kind == Kind::Mmap
                    && s.regions[i].start == addr;
            let bad = len == 0 || len + 4095 > u64::MAX || addr + region::page_up(len as int)
                > u64::MAX;
            &&& bad || !known ==> r == Err::<(u64, u64), i32>(EINVAL)
            &&& !bad && known ==> (r matches Ok((start, end)) && start == addr && end <= addr
                + region::page_up(len as int) && exists|i: int|
                0 <= i < s.regions.len() && (#[trigger] s.regions[i]).kind == Kind::Mmap
                    && s.regions[i].start == addr && end <= s.regions[i].end && (end == addr
                    + region::page_up(len as int) || end == s.regions[i].end))
        }),
{
    table::lemma_first(s.regions, region::mapped_at(addr));
    let f = table::first(s.regions, region::mapped_at(addr));
    if f < s.regions.len() {
        assert(s.regions[f].kind == Kind::Mmap && s.regions[f].start == addr);
    } else {
        assert forall|i: int| 0 <= i < s.regions.len() implies !((#[trigger] s.regions[i]).kind
            == Kind::Mmap && s.regions[i].start == addr) by {
            assert(!region::mapped_at(addr)(s.regions[i]));
        }
    }
}

/// Unmapping takes away the whole mapping that starts at the address, and nothing else
/// of the process's memory: an address of another region stays.
pub proof fn law_unmapping_takes_its_mapping_alone(s: Space, start: u64, len: u64, addr: u64)
    requires
        laws::wf(s),
        region::munmap_result(s, start, len) is Ok,
    ensures
        ({
            let t = region::munmap_space(s, start);
            let elsewhere = exists|i: int|
                0 <= i < 16 && (#[trigger] s.regions[i]).covers(addr) && !(s.regions[i].kind
                    == Kind::Mmap && s.regions[i].start == start);
            &&& t.contains(addr) <==> elsewhere
            &&& t.mmap_next == s.mmap_next
            &&& t.heap_origin == s.heap_origin
        }),
{
    let t = region::munmap_space(s, start);
    table::lemma_first(s.regions, region::mapped_at(start));
    let f = table::first(s.regions, region::mapped_at(start));
    law_contains_is_some_region(t, addr);
    assert forall|k: int| 0 <= k < 16 && k != f implies !((#[trigger] s.regions[k]).kind
        == Kind::Mmap && s.regions[k].start == start) by {
        assert(laws::region_ok(s, s.regions[k]));
        assert(laws::region_ok(s, s.regions[f]));
        if k < f {
            assert(laws::apart(s.regions[k], s.regions[f]));
        } else {
            assert(laws::apart(s.regions[f], s.regions[k]));
        }
    }
    if t.contains(addr) {
        let k = choose|k: int|
            0 <= k < t.regions.len() && (#[trigger] t.regions[k]).kind != Kind::Unused
                && t.regions[k].start <= addr < t.regions[k].end;
        assert(k != f);
        assert(s.regions[k].covers(addr));
    }
    if exists|i: int|
        0 <= i < 16 && (#[trigger] s.regions[i]).covers(addr) && !(s.regions[i].kind == Kind::Mmap
            && s.regions[i].start == start) {
        let k = choose|i: int|
            0 <= i < 16 && (#[trigger] s.regions[i]).covers(addr) && !(s.regions[i].kind
                == Kind::Mmap && s.regions[i].start == start);
        assert(k != f);
        assert(t.regions[k] == s.regions[k]);
    }
}

/// What the kernel is asked on a fault, word by word: to map a fresh writable page at
/// the page of the address, for the process that faulted, and to let that process go on.
#[verifier::spinoff_prover]
#[verifier::rlimit(60)]
pub proof fn law_fault_maps_its_page(t: RegionTable, faulting: Endpoint, far: u64)
    ensures
        server::fault_asks(t, faulting, far) is Some <==> region::trackable(
            server::proc_of(faulting),
        ) && t.space(server::proc_of(faulting)).contains(far),
        server::fault_asks(t, faulting, far) matches Some((map, clear)) ==> {
            let page = payload::u64_field(map, 8);
            &&& payload::i32_field(map, 0) == VMCTL_PT_MAP
            &&& payload::i32_field(map, 4) == faulting
            &&& page % 4096 == 0
            &&& page <= far < page + 4096
            &&& payload::i32_field(map, 16) == VMCTL_PROT_WRITE
            &&& payload::i32_field(clear, 0) == VMCTL_CLEAR_PAGEFAULT
            &&& payload::i32_field(clear, 4) == faulting
        },
{
    let page = server::page_of(far);
    let map = server::map_payload(faulting, page);
    let clear = server::clear_payload(faulting);
    lemma_page(far);
    lemma_map_reads_back(faulting, page);
    lemma_clear_reads_back(faulting);
    assert(server::fault_asks(t, faulting, far) is Some ==> server::fault_asks(t, faulting, far)
        == Some((map, clear)));
}

/// The page of an address starts at the last whole page at or before it.
proof fn lemma_page(addr: u64)
    ensures
        server::page_of(addr) % 4096 == 0,
        server::page_of(addr) <= addr < server::page_of(addr) + 4096,
{
}

/// What a call to map a fresh page says.
proof fn lemma_map_reads_back(target: Endpoint, page: u64)
    ensures
        payload::i32_field(server::map_payload(target, page), 0) == VMCTL_PT_MAP,
        payload::i32_field(server::map_payload(target, page), 4) == target,
        payload::u64_field(server::map_payload(target, page), 8) == page,
        payload::i32_field(server::map_payload(target, page), 16) == VMCTL_PROT_WRITE,
{
    let q = server::vmctl_payload(VMCTL_PT_MAP, target, page);
    law_call_reads_back(VMCTL_PT_MAP, target, page);
    payload::law_i32_round_trip(q, 16, VMCTL_PROT_WRITE);
    payload::law_writes_do_not_disturb(q, 16, VMCTL_PROT_WRITE, 0, 0);
    payload::law_writes_do_not_disturb(q, 16, VMCTL_PROT_WRITE, 0, 4);
    payload::law_writes_do_not_disturb(q, 16, VMCTL_PROT_WRITE, 0, 8);
}

/// What a call to let a process go on says.
proof fn lemma_clear_reads_back(target: Endpoint)
    ensures
        payload::i32_field(server::clear_payload(target), 0) == VMCTL_CLEAR_PAGEFAULT,
        payload::i32_field(server::clear_payload(target), 4) == target,
{
    let p0 = payload::zero_payload();
    let c = payload::with_i32(p0, 0, VMCTL_CLEAR_PAGEFAULT);
    payload::law_i32_round_trip(p0, 0, VMCTL_CLEAR_PAGEFAULT);
    payload::law_i32_round_trip(c, 4, target);
    payload::law_writes_do_not_disturb(c, 4, target, 0, 0);
}

/// What a page-table call says reads back: what to do, to whom, at which page.
pub proof fn law_call_reads_back(op: i32, target: Endpoint, page: u64)
    ensures
        payload::i32_field(server::vmctl_payload(op, target, page), 0) == op,
        payload::i32_field(server::vmctl_payload(op, target, page), 4) == target,
        payload::u64_field(server::vmctl_payload(op, target, page), 8) == page,
{
    let p0 = payload::zero_payload();
    let p1 = payload::with_i32(p0, 0, op);
    let p2 = payload::with_i32(p1, 4, target);
    payload::law_i32_round_trip(p0, 0, op);
    payload::law_i32_round_trip(p1, 4, target);
    payload::law_u64_round_trip(p2, 8, page);
    payload::law_writes_do_not_disturb(p1, 4, target, 0, 0);
    payload::law_writes_do_not_disturb(p2, 8, 0, page, 0);
    payload::law_writes_do_not_disturb(p2, 8, 0, page, 4);
}

/// A break that is granted is told to the caller, and every fault of the caller from
/// the heap's origin up to it is resolved from then on. A break that is refused changes
/// no one's memory, and the request comes back as it was.
pub proof fn law_break_then_fault(
    t: RegionTable,
    u: RegionTable,
    msg: Message,
    reply: Message,
    far: u64,
)
    requires
        t.wf(),
        server::brk_served(t, u, msg, reply),
        region::trackable(server::proc_of(msg.m_source)),
    ensures
        reply.m_type == OK ==> {
            let end = payload::u64_field(reply.payload@, 0);
            &&& payload::u64_field(msg.payload@, 0) <= end < payload::u64_field(msg.payload@, 0)
                + 4096
            &&& t.space(server::proc_of(msg.m_source)).heap_origin <= far < end
                ==> server::fault_asks(u, msg.m_source, far) is Some
        },
        reply.m_type != OK ==> reply.payload@ == msg.payload@ && server::fault_asks(
            u,
            msg.m_source,
            far,
        ) == server::fault_asks(t, msg.m_source, far),
        forall|o: Endpoint|
            server::proc_of(o) != server::proc_of(msg.m_source) ==> #[trigger] server::fault_asks(
                u,
                o,
                far,
            ) == server::fault_asks(t, o, far),
{
    let nr = server::proc_of(msg.m_source);
    let s = t.space(nr);
    let b = payload::u64_field(msg.payload@, 0);
    assert(laws::wf(s));
    law_break_is_refused_only_for_cause(s, b);
    if let Ok(end) = region::brk_result(s, b) {
        law_break_moves_the_heap_alone(s, b, far);
        payload::law_u64_round_trip(msg.payload@, 0, end);
    }
}

/// A mapping that is granted is told to the caller, and every fault of the caller in
/// the bytes that were asked for is resolved from then on; no one else's is.
pub proof fn law_map_then_fault(
    t: RegionTable,
    u: RegionTable,
    msg: Message,
    reply: Message,
    far: u64,
)
    requires
        server::mmap_served(t, u, msg, reply),
        region::trackable(server::proc_of(msg.m_source)),
    ensures
        reply.m_type == OK ==> {
            let start = payload::u64_field(reply.payload@, 0);
            let len = payload::u64_field(msg.payload@, 0);
            &&& start <= far < start + len ==> server::fault_asks(u, msg.m_source, far) is Some
            &&& far < start || far >= start + len + 4095 ==> server::fault_asks(u, msg.m_source, far)
                == server::fault_asks(t, msg.m_source, far)
        },
        reply.m_type != OK ==> reply.payload@ == msg.payload@ && server::fault_asks(
            u,
            msg.m_source,
            far,
        ) == server::fault_asks(t, msg.m_source, far),
        forall|o: Endpoint|
            server::proc_of(o) != server::proc_of(msg.m_source) ==> #[trigger] server::fault_asks(
                u,
                o,
                far,
            ) == server::fault_asks(t, o, far),
{
    let nr = server::proc_of(msg.m_source);
    let s = t.space(nr);
    let len = payload::u64_field(msg.payload@, 0);
    law_mapping_is_refused_only_for_cause(s, len);
    if let Ok(start) = region::mmap_result(s, len) {
        law_mapping_adds_its_pages(s, len, far);
        payload::law_u64_round_trip(msg.payload@, 0, start);
    }
}

/// Once a mapping is dropped, its addresses fault for good (unless the heap or the stack
/// holds them), the pages swept start at it, and no other process notices.
pub proof fn law_unmap_then_fault(
    t: RegionTable,
    u: RegionTable,
    msg: Message,
    code: i32,
    sweep: Sweep,
    far: u64,
)
    requires
        t.wf(),
        server::munmap_served(t, u, msg, code, sweep),
        region::trackable(server::proc_of(msg.m_source)),
        code == OK,
    ensures
        sweep.page == payload::u64_field(msg.payload@, 0),
        sweep.page <= far < sweep.end && (forall|i: int|
            0 <= i < 16 && (#[trigger] t.space(server::proc_of(msg.m_source)).regions[i]).kind
                != Kind::Mmap ==> !t.space(server::proc_of(msg.m_source)).regions[i].covers(far))
            ==> server::fault_asks(u, msg.m_source, far) is None,
        forall|o: Endpoint|
            server::proc_of(o) != server::proc_of(msg.m_source) ==> #[trigger] server::fault_asks(
                u,
                o,
                far,
            ) == server::fault_asks(t, o, far),
{
    let nr = server::proc_of(msg.m_source);
    let s = t.space(nr);
    let addr = payload::u64_field(msg.payload@, 0);
    let len = payload::u64_field(msg.payload@, 8);
    assert(laws::wf(s));
    law_unmapping_is_refused_only_for_cause(s, addr, len);
    law_unmapping_takes_its_mapping_alone(s, addr, len, far);
    let f = choose|i: int|
        0 <= i < s.regions.len() && (#[trigger] s.regions[i]).kind == Kind::Mmap
            && s.regions[i].start == addr && sweep.end <= s.regions[i].end;
    assert forall|i: int| 0 <= i < 16 && (#[trigger] s.regions[i]).covers(far) && sweep.page <= far
        < sweep.end && s.regions[i].kind == Kind::Mmap implies s.regions[i].start == addr by {
        if i < f {
            assert(laws::apart(s.regions[i], s.regions[f]));
        } else if f < i {
            assert(laws::apart(s.regions[f], s.regions[i]));
        }
    }
}

/// A child has its parent's memory: each fault of the child is resolved exactly where
/// one of the parent would be, and the parent's and everybody else's are as they were.
pub proof fn law_fork_then_fault(
    t: RegionTable,
    u: RegionTable,
    msg: Message,
    code: i32,
    far: u64,
)
    requires
        server::fork_served(t, u, msg, code),
    ensures
        ({
            let parent = payload::i32_field(msg.payload@, 0);
            let child = payload::i32_field(msg.payload@, 4);
            &&& code == OK <==> region::trackable(server::proc_of(parent)) && region::trackable(
                server::proc_of(child),
            )
            &&& code == OK || code == EINVAL
            &&& code == OK ==> (server::fault_asks(u, child, far) is Some <==> server::fault_asks(
                t,
                parent,
                far,
            ) is Some)
            &&& forall|o: Endpoint|
                server::proc_of(o) != server::proc_of(child) ==> #[trigger] server::fault_asks(
                    u,
                    o,
                    far,
                ) == server::fault_asks(t, o, far)
        }),
{
}

/// Each request number means one thing, and no other number means anything.
pub proof fn law_requests_are_told_apart(m_type: i32)
    ensures
        server::request_of(m_type) == Request::PageFault <==> m_type == VM_PAGEFAULT,
        server::request_of(m_type) == Request::Brk <==> m_type == VM_BRK,
        server::request_of(m_type) == Request::Mmap <==> m_type == VM_MMAP,
        server::request_of(m_type) == Request::Munmap <==> m_type == VM_MUNMAP,
        server::request_of(m_type) == Request::Fork <==> m_type == VM_FORK,
{
}

/// A sweep unmaps every page of the mapping that was dropped, one after the other, and no
/// other.
pub proof fn law_sweep_covers_every_page(w: Sweep, k: int)
    requires
        w.page % 4096 == 0,
        w.end % 4096 == 0,
        w.page <= w.end,
    ensures
        w.rest().len() * 4096 == w.end - w.page,
        0 <= k < w.rest().len() ==> w.rest()[k] == w.page + 4096 * k,
        0 <= k < w.rest().len() ==> w.page <= w.rest()[k] < w.end,
{
    lemma_pages(w.page as int, w.end as int);
}

/// The pages from `page` up to `end`.
proof fn lemma_pages(page: int, end: int)
    requires
        page % 4096 == 0,
        end % 4096 == 0,
        page <= end,
    ensures
        server::pages(page, end).len() * 4096 == end - page,
        forall|k: int|
            0 <= k < server::pages(page, end).len() ==> #[trigger] server::pages(page, end)[k]
                == page + 4096 * k,
    decreases end - page,
{
    if page < end {
        assert(page + 4096 <= end);
        lemma_pages(page + 4096, end);
        let rest = server::pages(page + 4096, end);
        assert forall|k: int|
            0 <= k < server::pages(page, end).len() implies #[trigger] server::pages(page, end)[k]
            == page + 4096 * k by {
            if k > 0 {
                assert(server::pages(page, end)[k] == rest[k - 1]);
            }
        }
    }
}

} // verus!
