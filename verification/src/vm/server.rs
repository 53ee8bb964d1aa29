//! Answering faults and memory requests.
use vstd::prelude::*;
use crate::abi::callnr::{
    SYS_VMCTL, VMCTL_CLEAR_PAGEFAULT, VMCTL_PROT_WRITE, VMCTL_PT_MAP, VMCTL_PT_UNMAP, VM_BRK,
    VM_FORK, VM_MMAP, VM_MUNMAP, VM_PAGEFAULT,
};
use crate::abi::endpoint;
use crate::abi::endpoint::{endpoint_proc, Endpoint};
use crate::abi::errno::{EINVAL, OK};
use crate::abi::message::Message;
use crate::rt::payload;
use crate::rt::payload::{rd_i32, rd_u64, wr_i32, wr_u64};
use crate::vm::region;
use crate::vm::region::{RegionTable, PAGE_SIZE, REGION_LIMIT};

verus! {

/// The process number in an endpoint.
pub open spec fn proc_of(e: Endpoint) -> i32 {
    endpoint::proc_spec(e as int) as i32
}

/// The payload of a page-table call on `target`.
pub open spec fn vmctl_payload(op: i32, target: Endpoint, page: u64) -> Seq<u8> {
    let p = payload::with_i32(payload::with_i32(payload::zero_payload(), 0, op), 4, target);
    payload::with_u64(p, 8, page)
}

/// The payload that maps a fresh writable page.
pub open spec fn map_payload(target: Endpoint, page: u64) -> Seq<u8> {
    payload::with_i32(vmctl_payload(VMCTL_PT_MAP, target, page), 16, VMCTL_PROT_WRITE)
}

/// The payload that lets a faulting process go on.
pub open spec fn clear_payload(target: Endpoint) -> Seq<u8> {
    payload::with_i32(
        payload::with_i32(payload::zero_payload(), 0, VMCTL_CLEAR_PAGEFAULT),
        4,
        target,
    )
}

/// The page `addr` lies in.
pub open spec fn page_of(addr: u64) -> u64 {
    (addr / 4096 * 4096) as u64
}

/// What a fault of `faulting` at `far` asks of the kernel, in order: nothing when the
/// address lies in none of its regions.
pub open spec fn fault_asks(t: RegionTable, faulting: Endpoint, far: u64) -> Option<
    (Seq<u8>, Seq<u8>),
> {
    if region::trackable(proc_of(faulting)) && t.space(proc_of(faulting)).contains(far) {
        Some((map_payload(faulting, page_of(far)), clear_payload(faulting)))
    } else {
        None
    }
}

/// A fault is resolved when it lies in a region: a fresh page is mapped, then the
/// process goes on. Outside every region nothing is done and the process stays
/// blocked.
pub fn handle_pagefault(t: &RegionTable, faulting: Endpoint, far: u64) -> (calls: Option<
    (Message, Message),
>)
    ensures
        match calls {
            Some((map, clear)) => fault_asks(*t, faulting, far) matches Some((m, c))
                && map.carries(SYS_VMCTL, m) && clear.carries(SYS_VMCTL, c),
            None => fault_asks(*t, faulting, far) is None,
        },
{
    let nr: i32 = endpoint_proc(faulting);
    if !region::contains(t, nr, far) {
        return None;
    }
    let page: u64 = far & !(PAGE_SIZE - 1);
    assert(page == far / 4096 * 4096) by (bit_vector)
        requires
            page == far & !4095u64,
    ;
    let mut map = Message::request(SYS_VMCTL);
    wr_i32(&mut map, 0, VMCTL_PT_MAP);
    wr_i32(&mut map, 4, faulting);
    wr_u64(&mut map, 8, page);
    wr_i32(&mut map, 16, VMCTL_PROT_WRITE);
    let mut clear = Message::request(SYS_VMCTL);
    wr_i32(&mut clear, 0, VMCTL_CLEAR_PAGEFAULT);
    wr_i32(&mut clear, 4, faulting);
    Some((map, clear))
}

/// The reply to a request that returns one address: the address, or the error
/// with the payload untouched.
pub open spec fn address_reply(p: Seq<u8>, r: Result<u64, i32>) -> (i32, Seq<u8>) {
    match r {
        Ok(a) => (OK, payload::with_u64(p, 0, a)),
        Err(e) => (e, p),
    }
}

/// No process's memory has changed.
pub open spec fn untouched(t: RegionTable, u: RegionTable) -> bool {
    forall|o: i32| region::trackable(o) ==> #[trigger] u.space(o) == t.space(o)
}

/// The break request `msg` takes the memory from `t` to `u` and is answered with `reply`.
pub open spec fn brk_served(t: RegionTable, u: RegionTable, msg: Message, reply: Message) -> bool {
    let nr = proc_of(msg.m_source);
    let r = if region::trackable(nr) {
        region::brk_result(t.space(nr), payload::u64_field(msg.payload@, 0))
    } else {
        Err(EINVAL)
    };
    &&& (reply.m_type, reply.payload@) == address_reply(msg.payload@, r)
    &&& match r {
        Ok(end) => u.changed(t, nr, region::brk_space(t.space(nr), end)),
        Err(_) => untouched(t, u),
    }
}

/// Set the caller's program break.
pub fn handle_brk(t: &mut RegionTable, msg: &mut Message) -> (caller: Endpoint)
    requires
        old(t).wf(),
    ensures
        final(t).wf(),
        caller == old(msg).m_source,
        final(msg).m_source == 0,
        brk_served(*old(t), *final(t), *old(msg), *final(msg)),
{
    let caller: Endpoint = msg.m_source;
    let nr: i32 = endpoint_proc(caller);
    let new_break: u64 = rd_u64(msg, 0);
    let code: i32 = match region::set_brk(t, nr, new_break) {
        Ok(b) => {
            wr_u64(msg, 0, b);
            OK
        },
        Err(e) => e,
    };
    msg.m_type = code;
    msg.m_source = 0;
    caller
}

/// The mapping request `msg` takes the memory from `t` to `u` and is answered with
/// `reply`.
pub open spec fn mmap_served(t: RegionTable, u: RegionTable, msg: Message, reply: Message) -> bool {
    let nr = proc_of(msg.m_source);
    let len = payload::u64_field(msg.payload@, 0);
    let r = if region::trackable(nr) {
        region::mmap_result(t.space(nr), len)
    } else {
        Err(EINVAL)
    };
    &&& (reply.m_type, reply.payload@) == address_reply(msg.payload@, r)
    &&& if r is Ok {
        u.changed(t, nr, region::mmap_space(t.space(nr), len))
    } else {
        untouched(t, u)
    }
}

/// Map memory for the caller.
pub fn handle_mmap(t: &mut RegionTable, msg: &mut Message) -> (caller: Endpoint)
    requires
        old(t).wf(),
    ensures
        final(t).wf(),
        caller == old(msg).m_source,
        final(msg).m_source == 0,
        mmap_served(*old(t), *final(t), *old(msg), *final(msg)),
{
    let caller: Endpoint = msg.m_source;
    let nr: i32 = endpoint_proc(caller);
    let len: u64 = rd_u64(msg, 0);
    let code: i32 = match region::mmap(t, nr, len) {
        Ok(a) => {
            wr_u64(msg, 0, a);
            OK
        },
        Err(e) => e,
    };
    msg.m_type = code;
    msg.m_source = 0;
    caller
}

/// The pages of `[page, end)`, from `page` on.
pub open spec fn pages(page: int, end: int) -> Seq<int>
    decreases end - page + 4096,
{
    if page >= end {
        Seq::empty()
    } else {
        seq![page] + pages(page + 4096, end)
    }
}

/// The pages still to unmap of a process that dropped a mapping.
#[derive(Copy, Clone, Debug, PartialEq, Eq, Structural)]
pub struct Sweep {
    pub client: Endpoint,
    pub page: u64,
    pub end: u64,
}

impl Sweep {
    /// The sweep stays below the region limit.
    pub open spec fn wf(self) -> bool {
        self.end <= REGION_LIMIT
    }

    /// The pages still to unmap.
    pub open spec fn rest(self) -> Seq<int> {
        pages(self.page as int, self.end as int)
    }

    /// The next call to make, if any page is left. Its result does not matter: a
    /// page that never faulted in was never mapped.
    pub fn next(&mut self) -> (call: Option<Message>)
        requires
            old(self).wf(),
        ensures
            final(self).wf(),
            final(self).client == old(self).client,
            match call {
                Some(m) => {
                    &&& old(self).rest().len() > 0
                    &&& m.carries(
                        SYS_VMCTL,
                        vmctl_payload(VMCTL_PT_UNMAP, old(self).client, old(self).rest()[0] as u64),
                    )
                    &&& final(self).rest() == old(self).rest().skip(1)
                },
                None => old(self).rest().len() == 0 && *final(self) == *old(self),
            },
    {
        if self.page >= self.end {
            return None;
        }
        let page: u64 = self.page;
        let mut m = Message::request(SYS_VMCTL);
        wr_i32(&mut m, 0, VMCTL_PT_UNMAP);
        wr_i32(&mut m, 4, self.client);
        wr_u64(&mut m, 8, page);
        self.page = page + PAGE_SIZE;
        assert(self.rest() =~= old(self).rest().skip(1));
        Some(m)
    }
}

/// The unmapping request `msg` takes the memory from `t` to `u`, comes to `code`, and
/// leaves the pages of `sweep` to be unmapped.
pub open spec fn munmap_served(
    t: RegionTable,
    u: RegionTable,
    msg: Message,
    code: i32,
    sweep: Sweep,
) -> bool {
    let nr = proc_of(msg.m_source);
    let addr = payload::u64_field(msg.payload@, 0);
    let len = payload::u64_field(msg.payload@, 8);
    let r = if region::trackable(nr) {
        region::munmap_result(t.space(nr), addr, len)
    } else {
        Err(EINVAL)
    };
    match r {
        Ok((start, end)) => {
            &&& code == OK
            &&& sweep.page == start
            &&& sweep.end == end
            &&& u.changed(t, nr, region::munmap_space(t.space(nr), addr))
        },
        Err(e) => code == e && sweep.rest().len() == 0 && untouched(t, u),
    }
}

/// Drop the caller's mapping. The pages of the sweep are unmapped before the
/// reply is sent.
pub fn handle_munmap(t: &mut RegionTable, msg: &mut Message) -> (r: (Endpoint, Sweep))
    requires
        old(t).wf(),
    ensures
        final(t).wf(),
        r.0 == old(msg).m_source,
        r.1.client == r.0,
        r.1.wf(),
        final(msg).m_source == 0,
        final(msg).payload == old(msg).payload,
        munmap_served(*old(t), *final(t), *old(msg), final(msg).m_type, r.1),
{
    let caller: Endpoint = msg.m_source;
    let nr: i32 = endpoint_proc(caller);
    let addr: u64 = rd_u64(msg, 0);
    let len: u64 = rd_u64(msg, 8);
    let mut sweep = Sweep { client: caller, page: 0, end: 0 };
    let code: i32 = match region::munmap(t, nr, addr, len) {
        Ok((start, end)) => {
            sweep.page = start;
            sweep.end = end;
            OK
        },
        Err(e) => e,
    };
    msg.m_type = code;
    msg.m_source = 0;
    (caller, sweep)
}

/// The fork request `msg` takes the memory from `t` to `u` and comes to `code`.
pub open spec fn fork_served(t: RegionTable, u: RegionTable, msg: Message, code: i32) -> bool {
    let parent = proc_of(payload::i32_field(msg.payload@, 0));
    let child = proc_of(payload::i32_field(msg.payload@, 4));
    if region::trackable(parent) && region::trackable(child) {
        code == OK && u.changed(t, child, t.space(parent))
    } else {
        code == EINVAL && untouched(t, u)
    }
}

/// Give the request's child its parent's regions.
pub fn handle_fork(t: &mut RegionTable, msg: &mut Message) -> (caller: Endpoint)
    requires
        old(t).wf(),
    ensures
        final(t).wf(),
        caller == old(msg).m_source,
        final(msg).m_source == 0,
        final(msg).payload == old(msg).payload,
        fork_served(*old(t), *final(t), *old(msg), final(msg).m_type),
{
    let caller: Endpoint = msg.m_source;
    let parent: i32 = endpoint_proc(rd_i32(msg, 0));
    let child: i32 = endpoint_proc(rd_i32(msg, 4));
    msg.m_type = match region::fork(t, parent, child) {
        Ok(_) => OK,
        Err(e) => e,
    };
    msg.m_source = 0;
    caller
}

/// Which handler a message goes to.
#[derive(Copy, Clone, Debug, PartialEq, Eq, Structural)]
pub enum Request {
    PageFault,
    Brk,
    Mmap,
    Munmap,
    Fork,
    Unknown,
}

/// The request a message type names.
pub open spec fn request_of(m_type: i32) -> Request {
    if m_type == VM_PAGEFAULT {
        Request::PageFault
    } else if m_type == VM_BRK {
        Request::Brk
    } else if m_type == VM_MMAP {
        Request::Mmap
    } else if m_type == VM_MUNMAP {
        Request::Munmap
    } else if m_type == VM_FORK {
        Request::Fork
    } else {
        Request::Unknown
    }
}

/// Tell the requests apart; an unknown one is dropped.
pub fn request(m_type: i32) -> (r: Request)
    ensures
        r == request_of(m_type),
{
    if m_type == VM_PAGEFAULT {
        Request::PageFault
    } else if m_type == VM_BRK {
        Request::Brk
    } else if m_type == VM_MMAP {
        Request::Mmap
    } else if m_type == VM_MUNMAP {
        Request::Munmap
    } else if m_type == VM_FORK {
        Request::Fork
    } else {
        Request::Unknown
    }
}

/// A sweep visits every page of its range once, in order.
pub proof fn law_pages_tile(start: int, end: int)
    ensures
        start >= end ==> pages(start, end).len() == 0,
        start < end ==> pages(start, end).len() == (end - start + 4095) / 4096,
        forall|k: int|
            0 <= k < pages(start, end).len() ==> #[trigger] pages(start, end)[k] == start + 4096 * k
                && pages(start, end)[k] < end,
    decreases end - start + 4096,
{
    if start < end {
        law_pages_tile(start + 4096, end);
        let rest = pages(start + 4096, end);
        assert forall|k: int| 0 <= k < pages(start, end).len() implies #[trigger] pages(
            start,
            end,
        )[k] == start + 4096 * k && pages(start, end)[k] < end by {
            if k > 0 {
                assert(pages(start, end)[k] == rest[k - 1]);
            }
        }
    }
}

} // verus!
