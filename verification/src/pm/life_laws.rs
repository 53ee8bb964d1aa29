//! What the process manager promises across requests: what a fork tells the two
//! processes is what they later hear of themselves, and what a child exits with is what
//! its parent collects.
use vstd::prelude::*;
use crate::abi::callnr::{
    EXEC_NAME_LEN, PM_EXEC, PM_EXIT, PM_FORK, PM_GETPID, PM_GRANT_TEST, PM_WAIT, PRIVCTL_SET_USER,
    SCHEDULING_START, SCHEDULING_STOP, SYS_ENDKSIG, SYS_EXIT, SYS_FORK, SYS_GETKSIG, SYS_PRIVCTL,
    VM_FORK,
};
use crate::abi::com::{SCHED_PROC_NR, SYSTEM, VM_PROC_NR};
use crate::abi::endpoint::Endpoint;
use crate::abi::errno::{EAGAIN, ECHILD, EINVAL, ENAMETOOLONG, ESRCH, OK};
use crate::abi::ipc::NOTIFY_MESSAGE;
use crate::abi::message::Message;
use crate::pm::fork;
use crate::pm::fork::Fork;
use crate::pm::laws;
use crate::pm::mproc;
use crate::pm::mproc::{KillAction, MProc, FORK_POOL_BASE};
use crate::pm::path;
use crate::pm::path::Named;
use crate::pm::server;
use crate::pm::server::{Drain, Exit, Request};
use crate::rt::payload;
use crate::table;
use crate::text;

verus! {

/// One word reads back.
pub proof fn law_word_reads_back(a: i32)
    ensures
        payload::i32_field(fork::word_payload(a), 0) == a,
{
    payload::law_i32_round_trip(payload::zero_payload(), 0, a);
}

/// Two words read back, each from its own place.
pub proof fn law_pair_reads_back(a: i32, b: i32)
    ensures
        payload::i32_field(fork::pair_payload(a, b), 0) == a,
        payload::i32_field(fork::pair_payload(a, b), 4) == b,
{
    let p0 = payload::zero_payload();
    let p1 = payload::with_i32(p0, 0, a);
    payload::law_i32_round_trip(p0, 0, a);
    payload::law_i32_round_trip(p1, 4, b);
    payload::law_writes_do_not_disturb(p1, 4, b, 0, 0);
}

/// What each call of a fork asks, and of whom. The kernel clones the parent into the
/// slot set aside; the memory server copies the parent's regions to the child; the
/// scheduler takes the child on, at band 8 and for 5 ticks; the kernel releases it.
/// Undoing asks the scheduler to let the child go, and the kernel to tear it down.
pub proof fn law_fork_calls_by_step(f: Fork)
    requires
        f.wf(),
    ensures
        f.over() <==> fork::next_call(f) is None,
        fork::next_call(f) matches Some((to, m_type, p)) ==> match f {
            Fork::Clone { parent, slot, .. } => {
                &&& to == SYSTEM + 0x8000
                &&& m_type == SYS_FORK
                &&& payload::i32_field(p, 0) == parent
                &&& payload::i32_field(p, 4) == slot
            },
            Fork::Regions { parent, child, .. } => {
                &&& to == VM_PROC_NR
                &&& m_type == VM_FORK
                &&& payload::i32_field(p, 0) == parent
                &&& payload::i32_field(p, 4) == child
            },
            Fork::Schedule { child, .. } => {
                &&& to == SCHED_PROC_NR
                &&& m_type == SCHEDULING_START
                &&& payload::i32_field(p, 0) == child
                &&& payload::i32_field(p, 4) == 8
                &&& payload::i32_field(p, 8) == 5
            },
            Fork::Release { child, .. } => {
                &&& to == SYSTEM + 0x8000
                &&& m_type == SYS_PRIVCTL
                &&& payload::i32_field(p, 0) == child
                &&& payload::i32_field(p, 4) == PRIVCTL_SET_USER
            },
            Fork::Unschedule { child, .. } => {
                &&& to == SCHED_PROC_NR
                &&& m_type == SCHEDULING_STOP
                &&& payload::i32_field(p, 0) == child
            },
            Fork::TearDown { child, .. } => {
                &&& to == SYSTEM + 0x8000
                &&& m_type == SYS_EXIT
                &&& payload::i32_field(p, 0) == child
            },
            _ => false,
        },
{
    match f {
        Fork::Clone { parent, slot, .. } => {
            law_pair_reads_back(parent, slot as i32);
        },
        Fork::Regions { parent, child, .. } => {
            law_pair_reads_back(parent, child);
        },
        Fork::Schedule { child, .. } => {
            law_pair_reads_back(child, 8);
            let p = fork::pair_payload(child, 8);
            payload::law_i32_round_trip(p, 8, 5);
            payload::law_writes_do_not_disturb(p, 8, 5, 0, 0);
            payload::law_writes_do_not_disturb(p, 8, 5, 0, 4);
        },
        Fork::Release { child, .. } => {
            law_pair_reads_back(child, PRIVCTL_SET_USER);
        },
        Fork::Unschedule { child, .. } => {
            law_word_reads_back(child);
        },
        Fork::TearDown { child, .. } => {
            law_word_reads_back(child);
        },
        _ => {},
    }
}

/// A fork whose calls all succeed makes its four calls in order, for the child that the
/// kernel named, and ends with that child told 0 and the parent told a pid that nobody
/// had: one past the highest.
pub proof fn law_successful_fork(t: Seq<MProc>, parent: Endpoint, child: Endpoint, x: Endpoint)
    requires
        laws::wf(t),
        fork::fork_start(t, parent) is Clone,
        mproc::max_pid(t) < i32::MAX,
    ensures
        ({
            let f0 = fork::fork_start(t, parent);
            let (f1, t1) = fork::fork_next(t, f0, OK, child);
            let (f2, t2) = fork::fork_next(t1, f1, OK, x);
            let (f3, t3) = fork::fork_next(t2, f2, OK, x);
            let (f4, t4) = fork::fork_next(t3, f3, OK, x);
            &&& f1 is Regions && f1->Regions_child == child
            &&& f2 is Schedule && f2->Schedule_child == child
            &&& f3 is Release && f3->Release_child == child
            &&& f4 is Done
            &&& t1 == t && t2 == t && t3 == t
            &&& fork::fork_answers(f4).len() == 2
            &&& fork::fork_answers(f4)[0] == (child, 0i32)
            &&& fork::fork_answers(f4)[1].0 == parent
            &&& forall|i: int|
                0 <= i < 32 && (#[trigger] t[i]).used() ==> t[i].pid < fork::fork_answers(f4)[1].1
        }),
{
    assert forall|i: int| 0 <= i < 32 && (#[trigger] t[i]).used() implies t[i].pid
        <= mproc::max_pid(t) by {
        laws::lemma_marks(t[i].flags);
        laws::lemma_max_pid(t, i);
    }
}

/// Whichever call of a fork fails first, its error is what the parent is told in the
/// end, whatever the undoing comes to; and the child, if there was one, has been torn
/// down. Nobody else is told anything.
pub proof fn law_failed_fork_tells_the_parent_why(
    t: Seq<MProc>,
    f: Fork,
    rc: i32,
    a: i32,
    b: i32,
    x: Endpoint,
)
    requires
        f is Clone || f is Regions || f is Schedule || f is Release,
        rc != OK,
    ensures
        ({
            let (f1, t1) = fork::fork_next(t, f, rc, x);
            let (f2, t2) = fork::fork_next(t1, f1, a, x);
            let (f3, t3) = fork::fork_next(t2, f2, b, x);
            &&& fork::fork_answers(f3) == seq![(fork::parent_of(f), rc)]
            &&& f is Clone ==> f1 is Refused
            &&& f is Regions || f is Schedule ==> f1 is TearDown && f2 is Refused
            &&& f is Release ==> f1 is Unschedule && f2 is TearDown
        }),
{
}

/// Who may fork, and when: a caller that is in the table, as long as a slot of the pool
/// is free. The two refusals are told apart.
pub proof fn law_fork_begins(t: Seq<MProc>, parent: Endpoint)
    requires
        t.len() == 32,
    ensures
        ({
            let known = exists|s: int|
                0 <= s < 32 && fork::slot_of(parent) == Some(s as usize) && (#[trigger] t[s]).used();
            let full = forall|i: int| FORK_POOL_BASE <= i < 32 ==> (#[trigger] t[i]).flags != 0;
            let f = fork::fork_start(t, parent);
            &&& !known ==> f == (Fork::Refused { parent, code: EINVAL })
            &&& known && full ==> f == (Fork::Refused { parent, code: EAGAIN })
            &&& known && !full ==> (f matches Fork::Clone { parent: p, parent_slot, slot } && p
                == parent && fork::slot_of(parent) == Some(parent_slot) && FORK_POOL_BASE <= slot
                < 32 && t[slot as int].flags == 0 && forall|i: int|
                FORK_POOL_BASE <= i < slot ==> (#[trigger] t[i]).flags != 0)
        }),
{
    laws::lemma_free_slot(t);
    if let Some(s) = fork::slot_of(parent) {
        if s < 32 {
            assert(t[s as int].used() == t[s as int].used());
        }
    }
}

/// The slot of a process is its number; the kernel's tasks have none.
pub proof fn law_slot_is_the_process_number(e: Endpoint)
    ensures
        fork::slot_of(e) matches Some(s) ==> s == crate::abi::endpoint::proc_spec(e as int),
        fork::slot_of(e) is None <==> crate::abi::endpoint::proc_spec(e as int) < 0,
        0 <= e < 32 ==> fork::slot_of(e) == Some(e as usize),
{
}

/// A process is told its own pid, and its parent's in the first word of the reply, whose
/// other bytes are those of the request. Nobody else is told anything but `ESRCH`.
pub proof fn law_getpid_tells_who_one_is(t: Seq<MProc>, caller: Endpoint, p: Seq<u8>)
    requires
        laws::wf(t),
        p.len() == 96,
    ensures
        ({
            let (code, q) = server::getpid_reply(t, caller, p);
            let slot = fork::slot_of(caller);
            let known = slot is Some && slot->0 < 32 && t[slot->0 as int].alive();
            &&& known ==> code == t[slot->0 as int].pid && payload::i32_field(q, 0)
                == t[t[slot->0 as int].parent_slot as int].pid
            &&& !known ==> code == ESRCH && q == p
            &&& forall|i: int| 4 <= i < 96 ==> #[trigger] q[i] == p[i]
        }),
{
    if let Some(s) = fork::slot_of(caller) {
        if let Some((pid, ppid)) = mproc::ids(t, s as int) {
            payload::law_i32_round_trip(p, 0, ppid);
            payload::law_i32_is_little_endian(p, 0, ppid);
        }
    }
}

/// What a fork told the parent is what the child hears when it asks who it is, and the
/// pid of the parent it hears is the parent's own.
pub proof fn law_child_hears_its_pid(
    t: Seq<MProc>,
    slot: usize,
    parent_slot: usize,
    parent: Endpoint,
    child: Endpoint,
    x: Endpoint,
    p: Seq<u8>,
)
    requires
        laws::wf(t),
        slot == mproc::free_slot(t),
        slot < 32,
        parent_slot < 32,
        parent_slot != slot,
        t[parent_slot as int].alive(),
        mproc::max_pid(t) < i32::MAX,
        fork::slot_of(child) == Some(slot),
        fork::slot_of(parent) == Some(parent_slot),
        p.len() == 96,
    ensures
        ({
            let f = Fork::Release { parent, parent_slot, slot, child };
            let (g, u) = fork::fork_next(t, f, OK, x);
            let (code, q) = server::getpid_reply(u, child, p);
            let (own, _) = server::getpid_reply(u, parent, p);
            &&& fork::fork_answers(g)[1] == (parent, code)
            &&& payload::i32_field(q, 0) == own
            &&& own == t[parent_slot as int].pid
            &&& u[slot as int].endpoint == child
        }),
{
    let u = mproc::with_child(t, slot as int, parent_slot, child);
    laws::law_child_is_born(t, slot as int, parent_slot, child);
    laws::law_child_keeps_wf(t, slot as int, parent_slot, child);
    law_getpid_tells_who_one_is(u, child, p);
    law_getpid_tells_who_one_is(u, parent, p);
    assert(u[parent_slot as int] == t[parent_slot as int]);
}

/// The low byte of an exit status is what travels, in the second byte of the word: a
/// status of one byte comes back by dividing, and nothing else is in the word.
pub proof fn law_status_travels_in_the_second_byte(status: i32)
    ensures
        server::encoded(status) == (status as int) % 256 * 256,
        0 <= status < 256 ==> server::encoded(status) / 256 == status,
        0 <= server::encoded(status) <= 0xff00,
        (server::encoded(status) as int) % 256 == 0,
{
}

/// What an exit does to the rest: the scheduler is told to let go of the one that exits,
/// the kernel to tear the same one down; a parent that was waiting is woken with the
/// child's pid and its status, and a parent that was not is left alone.
pub proof fn law_exit_tells_whom_it_must(
    t: Seq<MProc>,
    u: Seq<MProc>,
    msg: Message,
    reply: Message,
    x: Exit,
    s: usize,
)
    requires
        laws::wf(t),
        server::left(t, u, msg, reply, x),
        fork::slot_of(msg.m_source) == Some(s),
        s < 32,
        t[s as int].alive(),
    ensures
        x.calls matches Some((a, b)) && a.0 == SCHED_PROC_NR && a.1.m_type == SCHEDULING_STOP
            && payload::i32_field(a.1.payload@, 0) == msg.m_source && b.0 == SYSTEM + 0x8000
            && b.1.m_type == SYS_EXIT && payload::i32_field(b.1.payload@, 0) == msg.m_source,
        ({
            let parent = t[s as int].parent_slot as int;
            let waiting = t[parent].waits() && t[parent].used();
            &&& waiting ==> x.wake == Some(t[parent].endpoint) && reply.m_type == t[s as int].pid
                && payload::i32_field(reply.payload@, 0) == payload::i32_field(msg.payload@, 0) as int
                % 256 * 256
            &&& !waiting ==> x.wake is None
        }),
{
    law_word_reads_back(msg.m_source);
    let status = payload::i32_field(msg.payload@, 0);
    let z = mproc::with_zombie(t, s as int, server::encoded(status));
    laws::lemma_marks(t[s as int].flags);
    let parent = t[s as int].parent_slot as int;
    assert(z[s as int].parent_slot == parent);
    assert(z[parent].waits() == t[parent].waits() && z[parent].used() == t[parent].used());
    assert(z[parent].endpoint == t[parent].endpoint);
    payload::law_i32_round_trip(msg.payload@, 0, server::encoded(status));
}

/// An exit of somebody who is not in the table, or is gone already, does nothing.
pub proof fn law_nobody_exits(
    t: Seq<MProc>,
    u: Seq<MProc>,
    msg: Message,
    reply: Message,
    x: Exit,
)
    requires
        t.len() == 32,
        server::left(t, u, msg, reply, x),
        fork::slot_of(msg.m_source) matches Some(s) ==> s >= 32 || !t[s as int].alive(),
    ensures
        u == t,
        x.calls is None,
        x.wake is None,
{
}

/// What a wait brings: the pid and the status of a child of the caller that has ended,
/// and that child is then forgotten, nobody else. With children that all live it waits;
/// with none at all it is `ECHILD`.
pub proof fn law_wait_brings_a_child(
    t: Seq<MProc>,
    u: Seq<MProc>,
    msg: Message,
    reply: Message,
    to: Option<Endpoint>,
    s: usize,
)
    requires
        t.len() == 32,
        server::waited(t, u, msg, reply, to),
        fork::slot_of(msg.m_source) == Some(s),
    ensures
        ({
            let ended = exists|k: int|
                0 <= k < 32 && (#[trigger] t[k]).used() && t[k].gone() && t[k].parent_slot == s;
            let living = exists|k: int| 0 <= k < 32 && k != s && (#[trigger] t[k]).alive() && t[k].parent_slot == s;
            &&& ended ==> to == Some(msg.m_source) && exists|k: int|
                0 <= k < 32 && (#[trigger] t[k]).used() && t[k].gone() && t[k].parent_slot == s
                    && reply.m_type == t[k].pid && payload::i32_field(reply.payload@, 0)
                    == t[k].exit_status && u == t.update(k, MProc::empty_spec())
            &&& !ended && living ==> to is None
            &&& !ended && !living ==> to == Some(msg.m_source) && reply.m_type == ECHILD && u == t
        }),
{
    table::lemma_first(t, mproc::zombie_of(s));
    let f = table::first(t, mproc::zombie_of(s));
    if f < 32 {
        assert(t[f].used() && t[f].gone() && t[f].parent_slot == s);
        payload::law_i32_round_trip(msg.payload@, 0, t[f].exit_status);
    } else {
        assert forall|k: int| 0 <= k < 32 implies !((#[trigger] t[k]).used() && t[k].gone()
            && t[k].parent_slot == s) by {
            assert(!mproc::zombie_of(s)(t[k]));
        }
        if exists|k: int| 0 <= k < 32 && k != s && (#[trigger] t[k]).alive() && t[k].parent_slot == s {
            let k = choose|k: int|
                0 <= k < 32 && k != s && (#[trigger] t[k]).alive() && t[k].parent_slot == s;
            assert(mproc::live_child(t, s, k));
        }
        if mproc::has_child(t, s) {
            let k = choose|k: int| 0 <= k < t.len() && #[trigger] mproc::live_child(t, s, k);
            assert(t[k].alive());
        }
    }
}

/// A child's status reaches its parent: a child that exits while its parent does not
/// wait, and is the only one that has ended, is what the parent's next wait brings, with
/// the pid it had and the low byte of what it exited with in the second byte.
pub proof fn law_exit_then_wait(
    t: Seq<MProc>,
    u: Seq<MProc>,
    v: Seq<MProc>,
    exit: Message,
    after: Message,
    x: Exit,
    wait: Message,
    reply: Message,
    to: Option<Endpoint>,
    s: usize,
)
    requires
        laws::wf(t),
        server::left(t, u, exit, after, x),
        server::waited(u, v, wait, reply, to),
        fork::slot_of(exit.m_source) == Some(s),
        s < 32,
        t[s as int].alive(),
        fork::slot_of(wait.m_source) == Some(t[s as int].parent_slot),
        !t[t[s as int].parent_slot as int].waits(),
        forall|k: int|
            0 <= k < 32 && k != s && (#[trigger] t[k]).used() && t[k].gone() ==> t[k].parent_slot
                != t[s as int].parent_slot,
    ensures
        to == Some(wait.m_source),
        reply.m_type == t[s as int].pid,
        payload::i32_field(reply.payload@, 0) == payload::i32_field(exit.payload@, 0) as int % 256
            * 256,
        v[s as int] == MProc::empty_spec(),
{
    let parent = t[s as int].parent_slot;
    let status = payload::i32_field(exit.payload@, 0);
    let z = mproc::with_zombie(t, s as int, server::encoded(status));
    laws::law_exit_leaves_a_zombie(t, s as int, server::encoded(status));
    laws::lemma_marks(t[s as int].flags);
    assert(z[s as int].parent_slot == parent);
    assert(z[parent as int].waits() == t[parent as int].waits());
    assert(u == z);
    assert forall|k: int| 0 <= k < s implies !mproc::zombie_of(parent)(#[trigger] u[k]) by {
        assert(u[k] == t[k]);
    }
    table::lemma_first_is(u, mproc::zombie_of(parent), s as int);
    payload::law_i32_round_trip(wait.payload@, 0, server::encoded(status));
}

/// An exec is asked of the kernel for the very process that asked, with the name of the
/// request in its field and the source named outright.
pub proof fn law_exec_names_its_caller(source: Endpoint, p: Seq<u8>)
    requires
        p.len() == 96,
    ensures
        server::exec_asks(source, p) is Some <==> payload::name_field(p, 0, 16) is Some,
        server::exec_asks(source, p) matches Some((to, q)) ==> {
            let name = payload::name_field(p, 0, 16)->0;
            &&& to == SYSTEM + 0x8000
            &&& payload::i32_field(q, 0) == source
            &&& q.subrange(4, 4int + name.len()) == name
            &&& forall|i: int| 4 + name.len() <= i < 20 ==> #[trigger] q[i] == 0
            &&& payload::i32_field(q, 20) == 1
        },
{
    payload::law_name_is_what_the_field_starts_with(p, 0, 16);
    if let Some(name) = payload::name_field(p, 0, 16) {
        let p0 = payload::zero_payload();
        let p1 = payload::with_i32(p0, 0, source);
        let p2 = payload::with_bytes(p1, 4, name);
        let q = payload::with_i32(p2, 20, 1);
        assert(server::exec_name(name) == name);
        payload::law_i32_round_trip(p0, 0, source);
        payload::law_i32_is_little_endian(p0, 0, source);
        payload::law_bytes_are_placed_whole(p1, 4, name);
        payload::law_i32_round_trip(p2, 20, 1);
        payload::law_i32_is_little_endian(p2, 20, 1);
        assert(payload::i32_field(p2, 0) == payload::i32_field(p1, 0));
        payload::law_writes_do_not_disturb(p2, 20, 1, 0, 0);
        assert(q.subrange(4, 4int + name.len()) =~= p2.subrange(4, 4int + name.len()));
    }
}

/// A name longer than the kernel's field is cut to it, and no shorter one is.
pub proof fn law_exec_name_is_cut_to_its_field(name: Seq<u8>)
    ensures
        name.len() <= 16 ==> server::exec_name(name) == name,
        name.len() > 16 ==> server::exec_name(name) == name.take(16),
{
}

/// What draining asks of the kernel: for the next process while it fetches, to tear the
/// process down that is terminated, to end the signals of the one that is acknowledged.
pub proof fn law_drain_calls_by_step(d: Drain)
    ensures
        d == Drain::Done <==> server::drain_asks(d) is None,
        d == Drain::Fetch ==> (server::drain_asks(d)->0).0 == SYS_GETKSIG,
        d matches Drain::Terminate(e) ==> (server::drain_asks(d)->0).0 == SYS_EXIT
            && payload::i32_field((server::drain_asks(d)->0).1, 0) == e,
        d matches Drain::Acknowledge(e) ==> (server::drain_asks(d)->0).0 == SYS_ENDKSIG
            && payload::i32_field((server::drain_asks(d)->0).1, 0) == e,
{
    match d {
        Drain::Terminate(e) => {
            law_word_reads_back(e);
        },
        Drain::Acknowledge(e) => {
            law_word_reads_back(e);
        },
        _ => {},
    }
}

/// Who is killed: a live process that is not a system process, and nobody else. Killing
/// marks it gone and touches nothing else of it, nor any other.
pub proof fn law_who_is_killed(t: Seq<MProc>, slot: int)
    requires
        0 <= slot < t.len(),
    ensures
        mproc::kill_action(t, slot) == KillAction::Terminate <==> t[slot].alive()
            && !t[slot].privileged(),
        mproc::kill_action(t, slot) == KillAction::SkipPrivileged <==> t[slot].alive()
            && t[slot].privileged(),
        ({
            let u = mproc::marked_dead(t, slot);
            &&& u.len() == t.len()
            &&& u[slot].gone()
            &&& u[slot].used() == t[slot].used()
            &&& u[slot].waits() == t[slot].waits()
            &&& u[slot].pid == t[slot].pid
            &&& u[slot].parent_slot == t[slot].parent_slot
            &&& u[slot].endpoint == t[slot].endpoint
            &&& u[slot].exit_status == t[slot].exit_status
            &&& forall|k: int| 0 <= k < t.len() && k != slot ==> u[k] == #[trigger] t[k]
        }),
{
    laws::lemma_marks(t[slot].flags);
}

/// The processes the system starts with: the manager is pid 0 and its own parent; the
/// first user process is pid 1; every other server has the pid after its slot, under the
/// reincarnation server, which is itself under the manager. All of these are system
/// processes. The demo processes have their slots for pids, under the first user
/// process, and are ordinary ones. Each is known by the endpoint of its slot.
pub proof fn law_boot_processes(slot: int)
    requires
        0 <= slot < 15,
    ensures
        ({
            let e = mproc::boot_proc(slot);
            &&& e.endpoint == slot
            &&& e.exit_status == 0
            &&& e.alive()
            &&& !e.waits()
            &&& e.privileged() <==> slot <= 10
            &&& slot == 0 ==> e.pid == 0 && e.parent_slot == 0
            &&& slot == 10 ==> e.pid == 1 && e.parent_slot == 2
            &&& 0 < slot < 10 ==> e.pid == slot + 1
            &&& slot == 2 ==> e.parent_slot == 0
            &&& 0 < slot < 10 && slot != 2 ==> e.parent_slot == 2
            &&& slot > 10 ==> e.pid == slot && e.parent_slot == 10
        }),
{
    assert(3u8 & 8u8 == 0) by (bit_vector);
    laws::lemma_marks(0);
}

/// Each request means one thing; a notification counts only when the kernel sent it, and
/// no other number means anything.
pub proof fn law_requests_are_told_apart(source: int, m_type: i32)
    ensures
        server::request_of(source, m_type) == Request::Signals <==> m_type == NOTIFY_MESSAGE
            && source == SYSTEM + 0x8000,
        server::request_of(source, m_type) == Request::GetPid <==> m_type == PM_GETPID,
        server::request_of(source, m_type) == Request::Fork <==> m_type == PM_FORK,
        server::request_of(source, m_type) == Request::Exit <==> m_type == PM_EXIT,
        server::request_of(source, m_type) == Request::Wait <==> m_type == PM_WAIT,
        server::request_of(source, m_type) == Request::Exec <==> m_type == PM_EXEC,
        server::request_of(source, m_type) == Request::GrantTest <==> m_type == PM_GRANT_TEST,
{
}

/// What a path runs under: the text after its last slash, which has no slash in it. It
/// and what precedes it make up the path; a path that ends in a slash has none.
pub proof fn law_base_is_the_last_component(p: Seq<u8>)
    ensures
        path::base(p) matches Some(b) ==> {
            &&& b.len() > 0
            &&& forall|k: int| 0 <= k < b.len() ==> #[trigger] b[k] != 47
            &&& p == p.take(p.len() - b.len()) + b
            &&& p.len() > b.len() ==> p[p.len() - b.len() - 1] == 47
        },
        path::base(p) is None <==> p.len() == 0 || p.last() == 47,
{
    path::lemma_last_slash(p);
    if let Some(b) = path::base(p) {
        assert(p =~= p.take(p.len() - b.len()) + b);
        assert forall|k: int| 0 <= k < b.len() implies #[trigger] b[k] != 47 by {
            assert(b[k] == p[path::last_slash(p) + 1 + k]);
        }
    }
}

/// When an exec target is refused: for want of a terminator, for text that is not
/// UTF-8, for being empty, or for a name that does not fit the kernel's field, whether it
/// stands alone or ends a path. Everything else is accepted.
pub proof fn law_target_is_refused_only_for_cause(field: Seq<u8>)
    ensures
        ({
            let t = text::until_nul(field);
            let r = path::target_of(field);
            let name = if t.len() > 0 && t[0] == 47 {
                path::base(t)
            } else {
                Some(t)
            };
            &&& t.len() == field.len() ==> r == Err::<Named, i32>(ENAMETOOLONG)
            &&& t.len() < field.len() && (!vstd::utf8::valid_utf8(t) || t.len() == 0 || name is None
                || name->0.len() > EXEC_NAME_LEN) ==> r == Err::<Named, i32>(EINVAL)
            &&& t.len() < field.len() && vstd::utf8::valid_utf8(t) && t.len() > 0 && name is Some
                && name->0.len() <= EXEC_NAME_LEN ==> r == Ok::<Named, i32>(
                if t[0] == 47 {
                    Named::Path(t, name->0)
                } else {
                    Named::Module(t)
                },
            )
        }),
{
    text::law_until_nul_stops_at_the_first(field);
}

/// A program that was replaced hears nothing; one whose exec failed hears the kernel's
/// code, and one whose request named no program hears that it was invalid. No answer is
/// ever a success.
pub proof fn law_failed_exec_is_answered(rc: i32)
    ensures
        server::exec_answer(Some(rc)) is None <==> rc == OK,
        rc != OK ==> server::exec_answer(Some(rc)) == Some(rc),
        server::exec_answer(None) == Some(EINVAL),
{
}

} // verus!
