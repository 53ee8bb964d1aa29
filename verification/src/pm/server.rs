//! The process manager's other requests: identity, exit, wait, exec, and the
//! signals the kernel has pending.
use vstd::prelude::*;
use vstd::slice::slice_subrange;
use vstd::string::*;
use crate::abi::callnr::{
    EXEC_NAME_LEN, EXEC_SRC_NAME, EXEC_SRC_OFF, PM_EXEC, PM_EXEC_NAME_OFF, PM_EXIT, PM_FORK,
    PM_GETPID, PM_GRANT_TEST, PM_WAIT, SCHEDULING_STOP, SYS_ENDKSIG, SYS_EXEC, SYS_EXIT,
    SYS_GETKSIG,
};
use crate::abi::com;
use crate::abi::com::{boot_endpoint, SCHED_PROC_NR, SYSTEM};
use crate::abi::endpoint::{Endpoint, NONE};
use crate::abi::errno::{ECHILD, EINVAL, ESRCH, OK};
use crate::abi::ipc::NOTIFY_MESSAGE;
use crate::abi::message::Message;
use crate::pm::fork;
use crate::pm::fork::{caller_slot, sched_stop, sys_exit};
use crate::pm::laws;
use crate::pm::mproc;
use crate::pm::mproc::{KillAction, MProc, Procs};
use crate::rt::payload;
use crate::rt::payload::{rd_i32, rd_name, wr_bytes, wr_i32};
use crate::table;

verus! {

/// Turn `msg` into a reply with result `code`.
fn stamp(msg: &mut Message, code: i32)
    ensures
        final(msg).carries(code, old(msg).payload@),
{
    msg.m_type = code;
    msg.m_source = 0;
}

/// What `getpid` answers: the pid as the result, and the parent's in the payload.
pub open spec fn getpid_reply(t: Seq<MProc>, caller: Endpoint, p: Seq<u8>) -> (i32, Seq<u8>) {
    match fork::slot_of(caller) {
        Some(s) => match mproc::ids(t, s as int) {
            Some((pid, ppid)) => (pid, payload::with_i32(p, 0, ppid)),
            None => (ESRCH, p),
        },
        None => (ESRCH, p),
    }
}

/// Answer who the caller is, and who its parent is. The caller is the one the
/// kernel stamped on the message.
pub fn handle_getpid(p: &Procs, msg: &mut Message) -> (caller: Endpoint)
    requires
        p.wf(),
    ensures
        caller == old(msg).m_source,
        final(msg).m_source == 0,
        (final(msg).m_type, final(msg).payload@) == getpid_reply(
            p.slots@,
            caller,
            old(msg).payload@,
        ),
{
    let caller: Endpoint = msg.m_source;
    let result: i32 = match caller_slot(caller) {
        Some(slot) => match mproc::getpid(p, slot) {
            Some((pid, ppid)) => {
                wr_i32(msg, 0, ppid);
                pid
            },
            None => ESRCH,
        },
        None => ESRCH,
    };
    stamp(msg, result);
    caller
}

/// How an exit status travels: its low byte in the second byte.
pub open spec fn encoded(status: i32) -> i32 {
    ((status as int) % 256 * 256) as i32
}

/// Encode the status of a normal exit.
pub fn encode_status(status: i32) -> (s: i32)
    ensures
        s == encoded(status),
        0 <= s <= 0xff00,
{
    let low: i32 = status & 0xff;
    assert(0 <= low < 256 && low == (status as int) % 256) by (bit_vector)
        requires
            low == status & 0xff,
    ;
    low * 256
}

/// What an exit does: the calls, in order, and the parent to wake, if it waits.
pub struct Exit {
    /// The scheduler lets the process go, then the kernel tears it down: whom each
    /// call goes to, and the call. Their results do not matter.
    pub calls: Option<((Endpoint, Message), (Endpoint, Message))>,
    /// Whom the message, now a reply, goes to.
    pub wake: Option<Endpoint>,
}

/// The parent a process's exit wakes: the slot, and the endpoint, of a parent
/// that waits.
pub open spec fn waiting_parent(t: Seq<MProc>, slot: int) -> Option<(int, Endpoint)> {
    let parent = t[slot].parent_slot as int;
    if 0 <= parent < t.len() && t[parent].waits() && t[parent].used() {
        Some((parent, t[parent].endpoint))
    } else {
        None
    }
}

/// The table after the process in `slot` exits with `status`: a zombie until its
/// parent asks, or nothing at all when the parent was waiting.
pub open spec fn exited(t: Seq<MProc>, slot: int, status: i32) -> Seq<MProc> {
    let z = mproc::with_zombie(t, slot, encoded(status));
    match waiting_parent(z, slot) {
        Some((parent, _)) => mproc::without(mproc::with_waiting(z, parent, false), slot),
        None => z,
    }
}

/// The exit request `msg` takes the table from `t` to `u`, asks for `x`, and leaves
/// `reply` in place of the request.
pub open spec fn left(t: Seq<MProc>, u: Seq<MProc>, msg: Message, reply: Message, x: Exit) -> bool {
    let caller = msg.m_source;
    let status = payload::i32_field(msg.payload@, 0);
    let slot = fork::slot_of(caller);
    if slot is Some && mproc::ids(t, slot->0 as int) is Some {
        let s = slot->0 as int;
        let z = mproc::with_zombie(t, s, encoded(status));
        &&& x.calls is Some
        &&& ((x.calls->0).0).0 == com::boot_spec(SCHED_PROC_NR as int)
        &&& ((x.calls->0).0).1.carries(SCHEDULING_STOP, fork::word_payload(caller))
        &&& ((x.calls->0).1).0 == com::boot_spec(SYSTEM as int)
        &&& ((x.calls->0).1).1.carries(SYS_EXIT, fork::word_payload(caller))
        &&& u == exited(t, s, status)
        &&& match waiting_parent(z, s) {
            Some((_, e)) => {
                &&& x.wake == Some(e)
                &&& reply.carries(t[s].pid, payload::with_i32(msg.payload@, 0, encoded(status)))
            },
            None => x.wake is None && reply == msg,
        }
    } else {
        &&& x.calls is None
        &&& x.wake is None
        &&& u == t
        &&& reply == msg
    }
}

/// Terminate the caller. Nothing is sent back to it. A caller that is nobody is
/// ignored.
pub fn handle_exit(p: &mut Procs, msg: &mut Message) -> (x: Exit)
    requires
        old(p).wf(),
    ensures
        final(p).wf(),
        left(old(p).slots@, final(p).slots@, *old(msg), *final(msg), x),
{
    let child: Endpoint = msg.m_source;
    let status: i32 = rd_i32(msg, 0);
    let slot: usize = match caller_slot(child) {
        Some(s) => s,
        None => {
            return Exit { calls: None, wake: None };
        },
    };
    let pid: i32 = match mproc::getpid(p, slot) {
        Some((pid, _)) => pid,
        None => {
            return Exit { calls: None, wake: None };
        },
    };
    let parent: usize = match mproc::parent_of(p, slot) {
        Some(s) => s,
        None => slot,
    };
    let code: i32 = encode_status(status);
    mproc::set_zombie(p, slot, code);
    let calls = Some(
        (
            (boot_endpoint(SCHED_PROC_NR), sched_stop(child)),
            (boot_endpoint(SYSTEM), sys_exit(child)),
        ),
    );
    if mproc::is_waiting(p, parent) {
        match mproc::endpoint_of(p, parent) {
            Some(e) => {
                wr_i32(msg, 0, code);
                stamp(msg, pid);
                mproc::set_waiting(p, parent, false);
                mproc::cleanup(p, slot);
                return Exit { calls, wake: Some(e) };
            },
            None => {},
        }
    }
    Exit { calls, wake: None }
}

/// The wait request `msg` takes the table from `t` to `u`, and is answered with `reply`
/// to `to`, if it is answered at once.
pub open spec fn waited(
    t: Seq<MProc>,
    u: Seq<MProc>,
    msg: Message,
    reply: Message,
    to: Option<Endpoint>,
) -> bool {
    let caller = msg.m_source;
    let q = msg.payload@;
    match fork::slot_of(caller) {
        None => to == Some(caller) && reply.carries(EINVAL, q) && u == t,
        Some(s) => match mproc::first_zombie(t, s) {
            Some((slot, pid, status)) => {
                &&& to == Some(caller)
                &&& reply.carries(pid, payload::with_i32(q, 0, status))
                &&& u == mproc::without(t, slot)
            },
            None => if mproc::has_child(t, s) {
                to is None && reply == msg && u == mproc::with_waiting(t, s as int, true)
            } else {
                to == Some(caller) && reply.carries(ECHILD, q) && u == t
            },
        },
    }
}

/// Collect a terminated child: its pid as the result and its status in the
/// payload. With live children only, the caller is suspended: there is no reply
/// until one of them exits. Without any, `ECHILD`.
pub fn handle_wait(p: &mut Procs, msg: &mut Message) -> (reply_to: Option<Endpoint>)
    requires
        old(p).wf(),
    ensures
        final(p).wf(),
        waited(old(p).slots@, final(p).slots@, *old(msg), *final(msg), reply_to),
{
    let parent: Endpoint = msg.m_source;
    let parent_slot: usize = match caller_slot(parent) {
        Some(s) => s,
        None => {
            stamp(msg, EINVAL);
            return Some(parent);
        },
    };
    match mproc::find_zombie_child(p, parent_slot) {
        Some((slot, pid, status)) => {
            wr_i32(msg, 0, status);
            stamp(msg, pid);
            mproc::cleanup(p, slot);
            Some(parent)
        },
        None => {
            if mproc::has_live_child(p, parent_slot) {
                mproc::set_waiting(p, parent_slot, true);
                None
            } else {
                stamp(msg, ECHILD);
                Some(parent)
            }
        },
    }
}

/// The name an exec call carries, cut to its field.
pub open spec fn exec_name(name: Seq<u8>) -> Seq<u8> {
    if name.len() <= EXEC_NAME_LEN {
        name
    } else {
        name.take(EXEC_NAME_LEN as int)
    }
}

/// The payload that replaces `target`'s image with the module `name`.
pub open spec fn exec_payload(target: Endpoint, name: Seq<u8>) -> Seq<u8> {
    let p = payload::with_bytes(fork::word_payload(target), 4, exec_name(name));
    payload::with_i32(p, EXEC_SRC_OFF as int, EXEC_SRC_NAME)
}

/// Build the call that replaces `target`'s image with the boot module `name`. The
/// source is named outright: a zeroed payload is no valid form.
pub fn sys_exec_name(target: Endpoint, name: &str) -> (m: Message)
    ensures
        m.carries(SYS_EXEC, exec_payload(target, name.spec_bytes())),
{
    let mut m = Message::request(SYS_EXEC);
    wr_i32(&mut m, 0, target);
    let b = name.as_bytes();
    let n: usize = if b.len() < EXEC_NAME_LEN {
        b.len()
    } else {
        EXEC_NAME_LEN
    };
    let part = slice_subrange(b, 0, n);
    assert(part@ =~= exec_name(b@));
    wr_bytes(&mut m, 4, part);
    wr_i32(&mut m, EXEC_SRC_OFF, EXEC_SRC_NAME);
    m
}

/// Whom an exec request of `source` has asked, and what: the kernel, to replace the
/// image of that very process.
pub open spec fn exec_asks(source: Endpoint, p: Seq<u8>) -> Option<(int, Seq<u8>)> {
    match payload::name_field(p, PM_EXEC_NAME_OFF as int, EXEC_NAME_LEN as int) {
        Some(name) => Some((com::boot_spec(SYSTEM as int), exec_payload(source, name))),
        None => None,
    }
}

/// Ask the kernel to replace the caller's image with the module the request
/// names. `None` for a malformed name, which is answered with `EINVAL` unasked.
pub fn handle_exec(msg: &Message) -> (call: Option<(Endpoint, Message)>)
    ensures
        match call {
            Some((to, m)) => exec_asks(msg.m_source, msg.payload@) matches Some((e, q)) && to == e
                && m.carries(SYS_EXEC, q),
            None => exec_asks(msg.m_source, msg.payload@) is None,
        },
{
    match rd_name(msg, PM_EXEC_NAME_OFF, EXEC_NAME_LEN) {
        Some(name) => Some((boot_endpoint(SYSTEM), sys_exec_name(msg.m_source, name))),
        None => None,
    }
}

/// What an exec is answered with, if it is answered: `rc` is what the kernel answered, or
/// nothing when it was not asked.
pub open spec fn exec_answer(rc: Option<i32>) -> Option<i32> {
    if rc == Some(OK) {
        None
    } else if rc is Some {
        rc
    } else {
        Some(EINVAL)
    }
}

/// End an exec: `rc` is what the kernel answered, or nothing when it was not
/// asked. On success there is no reply, for the caller runs its new image.
pub fn exec_reply(msg: &mut Message, rc: Option<i32>) -> (reply_to: Option<Endpoint>)
    ensures
        match exec_answer(rc) {
            None => reply_to is None && *final(msg) == *old(msg),
            Some(code) => reply_to == Some(old(msg).m_source) && final(msg).carries(
                code,
                old(msg).payload@,
            ),
        },
{
    let code: i32 = match rc {
        Some(rc) => rc,
        None => EINVAL,
    };
    if code == OK {
        return None;
    }
    let caller: Endpoint = msg.m_source;
    stamp(msg, code);
    Some(caller)
}

/// Where draining the kernel's pending signals stands.
#[derive(Copy, Clone, Debug, PartialEq, Eq, Structural)]
pub enum Drain {
    /// Ask for the next signalled process.
    Fetch,
    /// Terminate this one.
    Terminate(Endpoint),
    /// Acknowledge this one's signals.
    Acknowledge(Endpoint),
    /// Nothing is pending any more.
    Done,
}

/// What becomes of a signalled process.
pub open spec fn disposed(t: Seq<MProc>, target: Endpoint) -> KillAction {
    match fork::slot_of(target) {
        Some(s) => mproc::kill_action(t, s as int),
        None => KillAction::NotFound,
    }
}

/// How draining goes on, given the result of the last call and its reply.
pub open spec fn drain_next(t: Seq<MProc>, d: Drain, trap_rc: i32, m_type: i32, p: Seq<u8>) -> (
    Drain,
    Seq<MProc>,
) {
    match d {
        Drain::Fetch => {
            let target = payload::i32_field(p, 0);
            if trap_rc != OK || m_type != OK || target == NONE {
                (Drain::Done, t)
            } else if disposed(t, target) is Terminate {
                (
                    Drain::Terminate(target),
                    mproc::marked_dead(t, fork::slot_of(target)->0 as int),
                )
            } else {
                (Drain::Acknowledge(target), t)
            }
        },
        Drain::Terminate(target) => if trap_rc != OK || m_type != OK {
            (Drain::Acknowledge(target), t)
        } else {
            (Drain::Fetch, t)
        },
        Drain::Acknowledge(_) => (Drain::Fetch, t),
        Drain::Done => (d, t),
    }
}

/// Take the result of the last call and go on draining. A process that was
/// terminated is not acknowledged: nothing is left of it to acknowledge. One that
/// could not be is, so that every process the kernel hands out is disposed of
/// once.
pub fn drain_ksigs(p: &mut Procs, d: Drain, trap_rc: i32, reply: &Message) -> (next: Drain)
    requires
        old(p).wf(),
    ensures
        final(p).wf(),
        (next, final(p).slots@) == drain_next(
            old(p).slots@,
            d,
            trap_rc,
            reply.m_type,
            reply.payload@,
        ),
{
    match d {
        Drain::Fetch => {
            if trap_rc != OK || reply.m_type != OK {
                return Drain::Done;
            }
            let target: Endpoint = rd_i32(reply, 0);
            if target == NONE {
                return Drain::Done;
            }
            let action: KillAction = match caller_slot(target) {
                Some(slot) => mproc::handle_kill(p, slot),
                None => KillAction::NotFound,
            };
            match action {
                KillAction::Terminate => Drain::Terminate(target),
                KillAction::SkipPrivileged | KillAction::NotFound => Drain::Acknowledge(target),
            }
        },
        Drain::Terminate(target) => {
            if trap_rc != OK || reply.m_type != OK {
                Drain::Acknowledge(target)
            } else {
                Drain::Fetch
            }
        },
        Drain::Acknowledge(_) => Drain::Fetch,
        Drain::Done => Drain::Done,
    }
}

/// What draining asks of the kernel next: which call, and with what.
pub open spec fn drain_asks(d: Drain) -> Option<(i32, Seq<u8>)> {
    match d {
        Drain::Fetch => Some((SYS_GETKSIG, payload::zero_payload())),
        Drain::Terminate(e) => Some((SYS_EXIT, fork::word_payload(e))),
        Drain::Acknowledge(e) => Some((SYS_ENDKSIG, fork::word_payload(e))),
        Drain::Done => None,
    }
}

/// The call that draining makes next, and whom it goes to: always the kernel.
pub fn drain_call(d: Drain) -> (c: Option<(Endpoint, Message)>)
    ensures
        match c {
            Some((to, m)) => drain_asks(d) matches Some((t, q)) && to == com::boot_spec(
                SYSTEM as int,
            ) && m.carries(t, q),
            None => drain_asks(d) is None,
        },
{
    let system: Endpoint = boot_endpoint(SYSTEM);
    match d {
        Drain::Fetch => Some((system, Message::request(SYS_GETKSIG))),
        Drain::Terminate(e) => Some((system, sys_exit(e))),
        Drain::Acknowledge(e) => Some((system, sys_endksig(e))),
        Drain::Done => None,
    }
}

/// Build the call that acknowledges `target`'s signals.
pub fn sys_endksig(target: Endpoint) -> (m: Message)
    ensures
        m.carries(SYS_ENDKSIG, fork::word_payload(target)),
{
    let mut m = Message::request(SYS_ENDKSIG);
    wr_i32(&mut m, 0, target);
    m
}

/// Which handler a message goes to.
#[derive(Copy, Clone, Debug, PartialEq, Eq, Structural)]
pub enum Request {
    Signals,
    GetPid,
    Fork,
    Exit,
    Wait,
    Exec,
    GrantTest,
    Unknown,
}

/// The request a message is. A notification counts only when the kernel sent it.
pub open spec fn request_of(source: int, m_type: i32) -> Request {
    if m_type == NOTIFY_MESSAGE && source == com::boot_spec(SYSTEM as int) {
        Request::Signals
    } else if m_type == PM_GETPID {
        Request::GetPid
    } else if m_type == PM_FORK {
        Request::Fork
    } else if m_type == PM_EXIT {
        Request::Exit
    } else if m_type == PM_WAIT {
        Request::Wait
    } else if m_type == PM_EXEC {
        Request::Exec
    } else if m_type == PM_GRANT_TEST {
        Request::GrantTest
    } else {
        Request::Unknown
    }
}

/// Tell the requests apart; an unknown one is dropped.
pub fn request(msg: &Message) -> (r: Request)
    ensures
        r == request_of(msg.m_source as int, msg.m_type),
{
    if msg.m_type == NOTIFY_MESSAGE && msg.m_source == boot_endpoint(SYSTEM) {
        Request::Signals
    } else if msg.m_type == PM_GETPID {
        Request::GetPid
    } else if msg.m_type == PM_FORK {
        Request::Fork
    } else if msg.m_type == PM_EXIT {
        Request::Exit
    } else if msg.m_type == PM_WAIT {
        Request::Wait
    } else if msg.m_type == PM_EXEC {
        Request::Exec
    } else if msg.m_type == PM_GRANT_TEST {
        Request::GrantTest
    } else {
        Request::Unknown
    }
}

/// Every signalled process is disposed of exactly once: terminated, or, when it
/// must not or could not be, acknowledged; a privileged one is never terminated.
pub proof fn law_signals_are_disposed_once(
    t: Seq<MProc>,
    trap_rc: i32,
    m_type: i32,
    p: Seq<u8>,
    rc2: i32,
    type2: i32,
    q: Seq<u8>,
)
    requires
        trap_rc == OK,
        m_type == OK,
        payload::i32_field(p, 0) != NONE,
    ensures
        ({
            let target = payload::i32_field(p, 0);
            let (d, u) = drain_next(t, Drain::Fetch, trap_rc, m_type, p);
            let (e, v) = drain_next(u, d, rc2, type2, q);
            &&& d == Drain::Terminate(target) || d == Drain::Acknowledge(target)
            &&& d is Terminate ==> disposed(t, target) is Terminate
            &&& d is Terminate ==> disposed(u, target) is NotFound
            &&& d is Terminate && (rc2 != OK || type2 != OK) ==> e == Drain::Acknowledge(target)
            &&& d is Terminate && rc2 == OK && type2 == OK ==> e == Drain::Fetch
            &&& d is Acknowledge ==> e == Drain::Fetch && u == t
        }),
{
    let target = payload::i32_field(p, 0);
    if let Some(s) = fork::slot_of(target) {
        laws::law_kill_once(t, s as int);
    }
}

/// A child's exit reaches its parent either way: a parent that already waits gets
/// the pid and status at once and the slot is free again; otherwise a later wait
/// collects the same pid and status, the next one if no other child ended before.
pub proof fn law_exit_is_collected(t: Seq<MProc>, slot: int, status: i32)
    requires
        laws::wf(t),
        0 <= slot < 32,
        t[slot].alive(),
    ensures
        ({
            let parent = t[slot].parent_slot;
            let u = exited(t, slot, status);
            let before = table::count(t.take(slot), mproc::zombie_of(parent));
            match waiting_parent(t, slot) {
                Some(_) => u[slot] == MProc::empty_spec() && !u[parent as int].waits(),
                None => mproc::first_zombie(laws::collected(u, parent, before), parent) == Some(
                    (slot, t[slot].pid, encoded(status)),
                ),
            }
        }),
{
    let parent = t[slot].parent_slot;
    let z = mproc::with_zombie(t, slot, encoded(status));
    laws::law_exit_leaves_a_zombie(t, slot, encoded(status));
    laws::lemma_marks(t[slot].flags);
    assert(0u8 & 8u8 == 0) by (bit_vector);
    assert(z[slot].parent_slot == parent);
    assert(waiting_parent(z, slot) == waiting_parent(t, slot));
    assert(z.take(slot) =~= t.take(slot));
    laws::law_waiting_round_trips(z, parent as int);
    laws::law_every_zombie_is_collected(z, parent, slot);
}

} // verus!
