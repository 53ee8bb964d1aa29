//! Forking: the calls a fork makes one after the other, and what is undone when
//! one of them fails.
//!
//! A child is recorded only once the kernel has cloned it, its memory and its
//! scheduling are set up, and it has been released: one that never could run is
//! never waited for.
use vstd::prelude::*;
use crate::abi::callnr::{
    PRIVCTL_SET_USER, SCHEDULING_START, SCHEDULING_STOP, SYS_EXIT, SYS_FORK, SYS_PRIVCTL, VM_FORK,
};
use crate::abi::com;
use crate::abi::com::{boot_endpoint, SCHED_PROC_NR, SYSTEM, VM_PROC_NR};
use crate::abi::endpoint;
use crate::abi::endpoint::{endpoint_proc, Endpoint};
use crate::abi::errno::{EAGAIN, EINVAL, OK};
use crate::abi::message::Message;
use crate::pm::laws;
use crate::pm::mproc;
use crate::pm::mproc::{MProc, Procs, FORK_POOL_BASE};
use crate::rt::payload;
use crate::rt::payload::{rd_i32, wr_i32};

verus! {

/// The band a child starts in: that of the other managed processes.
pub const CHILD_PRIORITY: i32 = 8;

/// The quantum a child starts with.
pub const CHILD_QUANTUM: i32 = 5;

/// Where a fork stands: the call it waits for, or how it ended.
#[derive(Copy, Clone, Debug, PartialEq, Eq, Structural)]
pub enum Fork {
    /// The kernel clones the parent into the free slot.
    Clone { parent: Endpoint, parent_slot: usize, slot: usize },
    /// The memory server copies the regions.
    Regions { parent: Endpoint, parent_slot: usize, slot: usize, child: Endpoint },
    /// The scheduler takes the child on.
    Schedule { parent: Endpoint, parent_slot: usize, slot: usize, child: Endpoint },
    /// The kernel releases the child.
    Release { parent: Endpoint, parent_slot: usize, slot: usize, child: Endpoint },
    /// Undoing: the scheduler lets the child go.
    Unschedule { parent: Endpoint, slot: usize, child: Endpoint, code: i32 },
    /// Undoing: the kernel tears the child down.
    TearDown { parent: Endpoint, slot: usize, child: Endpoint, code: i32 },
    /// The parent gets an error.
    Refused { parent: Endpoint, code: i32 },
    /// The child gets 0 and the parent the child's pid, in that order.
    Done { parent: Endpoint, child: Endpoint, pid: i32 },
}

impl Fork {
    /// The slot set aside for the child, while the fork is under way.
    pub open spec fn slot(self) -> Option<usize> {
        match self {
            Fork::Clone { slot, .. } => Some(slot),
            Fork::Regions { slot, .. } => Some(slot),
            Fork::Schedule { slot, .. } => Some(slot),
            Fork::Release { slot, .. } => Some(slot),
            Fork::Unschedule { slot, .. } => Some(slot),
            Fork::TearDown { slot, .. } => Some(slot),
            Fork::Refused { .. } => None,
            Fork::Done { .. } => None,
        }
    }

    /// The parent's slot, while the fork may still succeed.
    pub open spec fn parent_slot(self) -> Option<usize> {
        match self {
            Fork::Clone { parent_slot, .. } => Some(parent_slot),
            Fork::Regions { parent_slot, .. } => Some(parent_slot),
            Fork::Schedule { parent_slot, .. } => Some(parent_slot),
            Fork::Release { parent_slot, .. } => Some(parent_slot),
            _ => None,
        }
    }

    /// The fork is over.
    pub open spec fn over(self) -> bool {
        self is Refused || self is Done
    }

    /// The slots the fork names are slots of the table.
    pub open spec fn wf(self) -> bool {
        &&& self.slot() matches Some(s) ==> FORK_POOL_BASE <= s < 32
        &&& self.parent_slot() matches Some(s) ==> s < 32
    }
}

/// The slot of the process behind an endpoint; none for a kernel task.
pub open spec fn slot_of(e: Endpoint) -> Option<usize> {
    let nr = endpoint::proc_spec(e as int);
    if nr >= 0 {
        Some(nr as usize)
    } else {
        None
    }
}

/// The slot of the process behind an endpoint.
pub fn caller_slot(e: Endpoint) -> (s: Option<usize>)
    ensures
        s == slot_of(e),
{
    let nr: i32 = endpoint_proc(e);
    if nr >= 0 {
        Some(nr as usize)
    } else {
        None
    }
}

/// How a fork asked for by `parent` begins.
pub open spec fn fork_start(t: Seq<MProc>, parent: Endpoint) -> Fork {
    match slot_of(parent) {
        Some(s) => if s < 32 && t[s as int].used() {
            if mproc::free_slot(t) < 32 {
                Fork::Clone { parent, parent_slot: s, slot: mproc::free_slot(t) as usize }
            } else {
                Fork::Refused { parent, code: EAGAIN }
            }
        } else {
            Fork::Refused { parent, code: EINVAL }
        },
        None => Fork::Refused { parent, code: EINVAL },
    }
}

/// Begin a fork: refuse a caller that is not in the table, and a table without a
/// free slot before anything has been done.
pub fn handle_fork(p: &Procs, parent: Endpoint) -> (f: Fork)
    ensures
        f == fork_start(p.slots@, parent),
        f.wf(),
{
    match caller_slot(parent) {
        Some(parent_slot) => {
            if !mproc::in_use(p, parent_slot) {
                return Fork::Refused { parent, code: EINVAL };
            }
            match mproc::alloc_slot(p) {
                Some(slot) => Fork::Clone { parent, parent_slot, slot },
                None => Fork::Refused { parent, code: EAGAIN },
            }
        },
        None => Fork::Refused { parent, code: EINVAL },
    }
}

/// How a fork goes on once its call has returned `rc`, with `child` in the reply
/// of the first.
pub open spec fn fork_next(t: Seq<MProc>, f: Fork, rc: i32, child_of: Endpoint) -> (
    Fork,
    Seq<MProc>,
) {
    match f {
        Fork::Clone { parent, parent_slot, slot } => if rc != OK {
            (Fork::Refused { parent, code: rc }, mproc::without(t, slot as int))
        } else {
            (Fork::Regions { parent, parent_slot, slot, child: child_of }, t)
        },
        Fork::Regions { parent, parent_slot, slot, child } => if rc != OK {
            (Fork::TearDown { parent, slot, child, code: rc }, t)
        } else {
            (Fork::Schedule { parent, parent_slot, slot, child }, t)
        },
        Fork::Schedule { parent, parent_slot, slot, child } => if rc != OK {
            (Fork::TearDown { parent, slot, child, code: rc }, t)
        } else {
            (Fork::Release { parent, parent_slot, slot, child }, t)
        },
        Fork::Release { parent, parent_slot, slot, child } => if rc != OK {
            (Fork::Unschedule { parent, slot, child, code: rc }, t)
        } else {
            (
                Fork::Done { parent, child, pid: (mproc::max_pid(t) + 1) as i32 },
                mproc::with_child(t, slot as int, parent_slot, child),
            )
        },
        Fork::Unschedule { parent, slot, child, code } => (
            Fork::TearDown { parent, slot, child, code },
            t,
        ),
        Fork::TearDown { parent, slot, child, code } => (
            Fork::Refused { parent, code },
            mproc::without(t, slot as int),
        ),
        Fork::Refused { .. } => (f, t),
        Fork::Done { .. } => (f, t),
    }
}

/// Take the result of the call a fork waits for, and go on. `reply` is the
/// kernel's, of which only the first call's is looked at: it names the child. The
/// results of undoing do not matter.
pub fn fork_step(p: &mut Procs, f: Fork, rc: i32, reply: &Message) -> (g: Fork)
    requires
        old(p).wf(),
        f.wf(),
        mproc::max_pid(old(p).slots@) < i32::MAX,
    ensures
        final(p).wf(),
        g.wf(),
        (g, final(p).slots@) == fork_next(
            old(p).slots@,
            f,
            rc,
            payload::i32_field(reply.payload@, 0),
        ),
{
    match f {
        Fork::Clone { parent, parent_slot, slot } => {
            if rc != OK {
                mproc::cleanup(p, slot);
                return Fork::Refused { parent, code: rc };
            }
            Fork::Regions { parent, parent_slot, slot, child: rd_i32(reply, 0) }
        },
        Fork::Regions { parent, parent_slot, slot, child } => {
            if rc != OK {
                return Fork::TearDown { parent, slot, child, code: rc };
            }
            Fork::Schedule { parent, parent_slot, slot, child }
        },
        Fork::Schedule { parent, parent_slot, slot, child } => {
            if rc != OK {
                return Fork::TearDown { parent, slot, child, code: rc };
            }
            Fork::Release { parent, parent_slot, slot, child }
        },
        Fork::Release { parent, parent_slot, slot, child } => {
            if rc != OK {
                return Fork::Unschedule { parent, slot, child, code: rc };
            }
            let pid: i32 = mproc::set_child(p, slot, parent_slot, child);
            Fork::Done { parent, child, pid }
        },
        Fork::Unschedule { parent, slot, child, code } => Fork::TearDown {
            parent,
            slot,
            child,
            code,
        },
        Fork::TearDown { parent, slot, child: _, code } => {
            mproc::cleanup(p, slot);
            Fork::Refused { parent, code }
        },
        Fork::Refused { .. } => f,
        Fork::Done { .. } => f,
    }
}

/// A payload of two words.
pub open spec fn pair_payload(a: i32, b: i32) -> Seq<u8> {
    payload::with_i32(payload::with_i32(payload::zero_payload(), 0, a), 4, b)
}

/// A payload of one word.
pub open spec fn word_payload(a: i32) -> Seq<u8> {
    payload::with_i32(payload::zero_payload(), 0, a)
}

/// Build the call that clones `parent` into the free process slot `child_nr`.
pub fn sys_fork(parent: Endpoint, child_nr: i32) -> (m: Message)
    ensures
        m.carries(SYS_FORK, pair_payload(parent, child_nr)),
{
    let mut m = Message::request(SYS_FORK);
    wr_i32(&mut m, 0, parent);
    wr_i32(&mut m, 4, child_nr);
    m
}

/// Build the request that copies `parent`'s regions to `child`.
pub fn vm_fork(parent: Endpoint, child: Endpoint) -> (m: Message)
    ensures
        m.carries(VM_FORK, pair_payload(parent, child)),
{
    let mut m = Message::request(VM_FORK);
    wr_i32(&mut m, 0, parent);
    wr_i32(&mut m, 4, child);
    m
}

/// Build the request that has `target` scheduled.
pub fn sched_start(target: Endpoint, priority: i32, quantum: i32) -> (m: Message)
    ensures
        m.carries(
            SCHEDULING_START,
            payload::with_i32(pair_payload(target, priority), 8, quantum),
        ),
{
    let mut m = Message::request(SCHEDULING_START);
    wr_i32(&mut m, 0, target);
    wr_i32(&mut m, 4, priority);
    wr_i32(&mut m, 8, quantum);
    m
}

/// Build the request that hands `target` back to the kernel's scheduler.
pub fn sched_stop(target: Endpoint) -> (m: Message)
    ensures
        m.carries(SCHEDULING_STOP, word_payload(target)),
{
    let mut m = Message::request(SCHEDULING_STOP);
    wr_i32(&mut m, 0, target);
    m
}

/// Build the call that gives the frozen `target` user privileges and lets it go.
pub fn privctl_set_user(target: Endpoint) -> (m: Message)
    ensures
        m.carries(SYS_PRIVCTL, pair_payload(target, PRIVCTL_SET_USER)),
{
    let mut m = Message::request(SYS_PRIVCTL);
    wr_i32(&mut m, 0, target);
    wr_i32(&mut m, 4, PRIVCTL_SET_USER);
    m
}

/// Build the call that tears `target` down.
pub fn sys_exit(target: Endpoint) -> (m: Message)
    ensures
        m.carries(SYS_EXIT, word_payload(target)),
{
    let mut m = Message::request(SYS_EXIT);
    wr_i32(&mut m, 0, target);
    m
}

/// Whom a fork calls next, with what request and payload; none once it is over.
pub open spec fn next_call(f: Fork) -> Option<(int, i32, Seq<u8>)> {
    let system = com::boot_spec(SYSTEM as int);
    let vm = com::boot_spec(VM_PROC_NR as int);
    let sched = com::boot_spec(SCHED_PROC_NR as int);
    match f {
        Fork::Clone { parent, slot, .. } => Some(
            (system, SYS_FORK, pair_payload(parent, slot as i32)),
        ),
        Fork::Regions { parent, child, .. } => Some((vm, VM_FORK, pair_payload(parent, child))),
        Fork::Schedule { child, .. } => Some(
            (
                sched,
                SCHEDULING_START,
                payload::with_i32(pair_payload(child, CHILD_PRIORITY), 8, CHILD_QUANTUM),
            ),
        ),
        Fork::Release { child, .. } => Some(
            (system, SYS_PRIVCTL, pair_payload(child, PRIVCTL_SET_USER)),
        ),
        Fork::Unschedule { child, .. } => Some((sched, SCHEDULING_STOP, word_payload(child))),
        Fork::TearDown { child, .. } => Some((system, SYS_EXIT, word_payload(child))),
        Fork::Refused { .. } => None,
        Fork::Done { .. } => None,
    }
}

/// The call a fork waits for, and whom to make it to.
pub fn fork_call(f: &Fork) -> (c: Option<(Endpoint, Message)>)
    ensures
        match c {
            Some((to, m)) => next_call(*f) matches Some((e, t, p)) && to == e && m.carries(t, p),
            None => f.over(),
        },
{
    match *f {
        Fork::Clone { parent, parent_slot: _, slot } => Some(
            (boot_endpoint(SYSTEM), sys_fork(parent, slot as i32)),
        ),
        Fork::Regions { parent, parent_slot: _, slot: _, child } => Some(
            (boot_endpoint(VM_PROC_NR), vm_fork(parent, child)),
        ),
        Fork::Schedule { parent: _, parent_slot: _, slot: _, child } => Some(
            (boot_endpoint(SCHED_PROC_NR), sched_start(child, CHILD_PRIORITY, CHILD_QUANTUM)),
        ),
        Fork::Release { parent: _, parent_slot: _, slot: _, child } => Some(
            (boot_endpoint(SYSTEM), privctl_set_user(child)),
        ),
        Fork::Unschedule { parent: _, slot: _, child, code: _ } => Some(
            (boot_endpoint(SCHED_PROC_NR), sched_stop(child)),
        ),
        Fork::TearDown { parent: _, slot: _, child, code: _ } => Some(
            (boot_endpoint(SYSTEM), sys_exit(child)),
        ),
        Fork::Refused { parent: _, code: _ } => None,
        Fork::Done { parent: _, child: _, pid: _ } => None,
    }
}

/// Who is told what when a fork is over, in order.
pub open spec fn fork_answers(f: Fork) -> Seq<(Endpoint, i32)> {
    match f {
        Fork::Refused { parent, code } => seq![(parent, code)],
        Fork::Done { parent, child, pid } => seq![(child, 0i32), (parent, pid)],
        _ => Seq::empty(),
    }
}

/// The replies that end a fork, in the order they are sent: the child's 0 ahead
/// of the parent's pid, or the error alone.
pub fn fork_replies(f: &Fork) -> (v: Vec<(Endpoint, i32)>)
    ensures
        v@ == fork_answers(*f),
{
    let mut v: Vec<(Endpoint, i32)> = Vec::new();
    match *f {
        Fork::Refused { parent, code } => {
            v.push((parent, code));
            assert(v@ =~= seq![(parent, code)]);
        },
        Fork::Done { parent, child, pid } => {
            v.push((child, 0));
            v.push((parent, pid));
            assert(v@ =~= seq![(child, 0i32), (parent, pid)]);
        },
        _ => {
            assert(v@ =~= Seq::empty());
        },
    }
    v
}

/// Where a fork and the table stand after some outcomes of its calls, each a result
/// and the child its reply names.
pub open spec fn forked(t: Seq<MProc>, f: Fork, outcomes: Seq<(i32, Endpoint)>) -> (
    Fork,
    Seq<MProc>,
)
    decreases outcomes.len(),
{
    if outcomes.len() == 0 {
        (f, t)
    } else {
        let (g, u) = forked(t, f, outcomes.drop_last());
        fork_next(u, g, outcomes.last().0, outcomes.last().1)
    }
}

proof fn lemma_forked(t: Seq<MProc>, parent: Endpoint, outcomes: Seq<(i32, Endpoint)>)
    requires
        t.len() == 32,
    ensures
        ({
            let s = mproc::free_slot(t);
            let (g, u) = forked(t, fork_start(t, parent), outcomes);
            &&& parent_of(g) == parent
            &&& g.slot() matches Some(x) ==> x == s && u == t
            &&& g.parent_slot() matches Some(x) ==> slot_of(parent) == Some(x)
            &&& g is Refused ==> u == t || u == mproc::without(t, s)
            &&& g is Done ==> {
                &&& slot_of(parent) is Some
                &&& g->pid == (mproc::max_pid(t) + 1) as i32
                &&& u == mproc::with_child(t, s, slot_of(parent)->0, g->Done_child)
            }
            &&& steps_left(g) + outcomes.len() <= 6 || g.over()
        }),
    decreases outcomes.len(),
{
    laws::lemma_free_slot(t);
    if outcomes.len() > 0 {
        lemma_forked(t, parent, outcomes.drop_last());
        let (g, u) = forked(t, fork_start(t, parent), outcomes.drop_last());
        lemma_fork_step(u, g, outcomes.last().0, outcomes.last().1);
    }
}

/// A fork is all or nothing, whatever its calls return: until it is done the table
/// shows nothing of it, once it is done the child is recorded with the pid the
/// parent is told, and a fork that is refused leaves the slot free.
pub proof fn law_fork_is_all_or_nothing(
    t: Seq<MProc>,
    parent: Endpoint,
    outcomes: Seq<(i32, Endpoint)>,
)
    requires
        t.len() == 32,
    ensures
        ({
            let s = mproc::free_slot(t);
            let (g, u) = forked(t, fork_start(t, parent), outcomes);
            &&& g is Done ==> {
                &&& slot_of(parent) is Some
                &&& g->pid == (mproc::max_pid(t) + 1) as i32
                &&& u == mproc::with_child(t, s, slot_of(parent)->0, g->Done_child)
            }
            &&& !g.over() ==> u == t
            &&& !(g is Done) ==> {
                &&& s < 32 ==> u[s].flags == 0
                &&& forall|i: int| 0 <= i < 32 && i != s ==> u[i] == #[trigger] t[i]
            }
        }),
{
    laws::lemma_free_slot(t);
    lemma_forked(t, parent, outcomes);
}

/// Every fork ends, after six outcomes at the latest, and the parent that asked is
/// the one that is answered.
pub proof fn law_fork_ends(
    t: Seq<MProc>,
    parent: Endpoint,
    outcomes: Seq<(i32, Endpoint)>,
)
    requires
        t.len() == 32,
    ensures
        outcomes.len() >= 6 ==> forked(t, fork_start(t, parent), outcomes).0.over(),
        parent_of(forked(t, fork_start(t, parent), outcomes).0) == parent,
{
    lemma_forked(t, parent, outcomes);
}

/// Each step of a fork is one nearer to a reply.
proof fn lemma_fork_step(t: Seq<MProc>, f: Fork, rc: i32, child: Endpoint)
    ensures
        !f.over() ==> steps_left(fork_next(t, f, rc, child).0) < steps_left(f),
        parent_of(fork_next(t, f, rc, child).0) == parent_of(f),
{
}

/// Steps a fork may still take.
pub open spec fn steps_left(f: Fork) -> nat {
    match f {
        Fork::Clone { .. } => 6,
        Fork::Regions { .. } => 5,
        Fork::Schedule { .. } => 4,
        Fork::Release { .. } => 3,
        Fork::Unschedule { .. } => 2,
        Fork::TearDown { .. } => 1,
        _ => 0,
    }
}

/// Who asked for a fork.
pub open spec fn parent_of(f: Fork) -> Endpoint {
    match f {
        Fork::Clone { parent, .. } => parent,
        Fork::Regions { parent, .. } => parent,
        Fork::Schedule { parent, .. } => parent,
        Fork::Release { parent, .. } => parent,
        Fork::Unschedule { parent, .. } => parent,
        Fork::TearDown { parent, .. } => parent,
        Fork::Refused { parent, .. } => parent,
        Fork::Done { parent, .. } => parent,
    }
}

} // verus!
