//! Answering the kernel's and the process manager's scheduling requests.
use vstd::prelude::*;
use crate::abi::callnr::{
    SCHEDCTL_FLAG_KERNEL, SCHEDULING_NO_QUANTUM, SCHEDULING_SET_NICE, SCHEDULING_START,
    SCHEDULING_STOP, SYS_SCHEDCTL, SYS_SCHEDULE,
};
use crate::abi::endpoint;
use crate::abi::endpoint::{endpoint_proc, Endpoint};
use crate::abi::errno::OK;
use crate::abi::message::Message;
use crate::rt::payload;
use crate::rt::payload::{rd_i32, wr_i32};
use crate::sched::policy;
use crate::sched::policy::{Policy, SchedProc, QUANTUM, USER_Q};

verus! {

/// What a request asks of the kernel, in order, and whom to reply to after that.
pub struct Outcome {
    pub calls: Vec<Message>,
    pub reply_to: Option<Endpoint>,
}

/// The payload that puts `target` on the run queue.
pub open spec fn schedule_payload(target: Endpoint, priority: u8, quantum: i32) -> Seq<u8> {
    let p = payload::with_i32(payload::zero_payload(), 0, target);
    payload::with_i32(payload::with_i32(p, 4, priority as i32), 8, quantum)
}

/// The payload that claims `target` for the scheduler or releases it.
pub open spec fn schedctl_payload(target: Endpoint, flags: i32) -> Seq<u8> {
    payload::with_i32(payload::with_i32(payload::zero_payload(), 0, flags), 4, target)
}

/// Build the call that gives `target` its band and quantum and admits it.
pub fn sys_schedule(target: Endpoint, priority: u8, quantum: i32) -> (m: Message)
    ensures
        m.carries(SYS_SCHEDULE, schedule_payload(target, priority, quantum)),
{
    let mut m = Message::request(SYS_SCHEDULE);
    wr_i32(&mut m, 0, target);
    wr_i32(&mut m, 4, priority as i32);
    wr_i32(&mut m, 8, quantum);
    m
}

/// Build the call that claims `target` (flags 0) or releases it to the kernel.
pub fn sys_schedctl(target: Endpoint, flags: i32) -> (m: Message)
    ensures
        m.carries(SYS_SCHEDCTL, schedctl_payload(target, flags)),
{
    let mut m = Message::request(SYS_SCHEDCTL);
    wr_i32(&mut m, 0, flags);
    wr_i32(&mut m, 4, target);
    m
}

/// The process number in an endpoint.
pub open spec fn proc_of(e: Endpoint) -> i32 {
    endpoint::proc_spec(e as int) as i32
}

/// The band in a request, kept to its byte.
pub open spec fn band_of(p: Seq<u8>) -> u8 {
    payload::i32_field(p, 4) as u8
}

/// A preempted process is admitted again: at its own band and quantum, at the
/// defaults when it is new, or not at all when there is no room to manage it.
pub open spec fn readmitted(
    t: Seq<SchedProc>,
    u: Seq<SchedProc>,
    preempted: Endpoint,
    calls: Seq<Message>,
) -> bool {
    let nr = proc_of(preempted);
    if policy::managed(t, nr) {
        &&& calls.len() == 1
        &&& calls[0].carries(
            SYS_SCHEDULE,
            schedule_payload(
                preempted,
                (policy::params(t, nr)->0).0,
                (policy::params(t, nr)->0).1,
            ),
        )
        &&& u == t
    } else if policy::manageable(t, nr) {
        &&& calls.len() == 1
        &&& calls[0].carries(SYS_SCHEDULE, schedule_payload(preempted, USER_Q, QUANTUM))
        &&& u == policy::recorded(t, nr, USER_Q, QUANTUM)
    } else {
        &&& calls.len() == 0
        &&& u == t
    }
}

/// The process a start request `q` names is claimed, recorded and admitted at the
/// request's band and quantum.
pub open spec fn started(
    t: Seq<SchedProc>,
    u: Seq<SchedProc>,
    q: Seq<u8>,
    calls: Seq<Message>,
) -> bool {
    let target = payload::i32_field(q, 0);
    let quantum = payload::i32_field(q, 8);
    &&& calls.len() == 2
    &&& calls[0].carries(SYS_SCHEDCTL, schedctl_payload(target, 0))
    &&& calls[1].carries(SYS_SCHEDULE, schedule_payload(target, band_of(q), quantum))
    &&& u == policy::recorded(t, proc_of(target), band_of(q), quantum)
}

/// The process a stop request `q` names is released and forgotten.
pub open spec fn stopped(
    t: Seq<SchedProc>,
    u: Seq<SchedProc>,
    q: Seq<u8>,
    calls: Seq<Message>,
) -> bool {
    let target = payload::i32_field(q, 0);
    &&& calls.len() == 1
    &&& calls[0].carries(SYS_SCHEDCTL, schedctl_payload(target, SCHEDCTL_FLAG_KERNEL))
    &&& u == policy::forgotten(t, proc_of(target))
}

/// The process a renice request `q` names moves to the request's band with the
/// quantum it had.
pub open spec fn reniced(
    t: Seq<SchedProc>,
    u: Seq<SchedProc>,
    q: Seq<u8>,
    calls: Seq<Message>,
) -> bool {
    let target = payload::i32_field(q, 0);
    let quantum = policy::kept_quantum(t, proc_of(target));
    &&& calls.len() == 1
    &&& calls[0].carries(SYS_SCHEDULE, schedule_payload(target, band_of(q), quantum))
    &&& u == policy::recorded(t, proc_of(target), band_of(q), quantum)
}

/// Turn `msg` into a reply with result `code`; the result is whom to send it to.
fn reply(msg: &mut Message, code: i32) -> (caller: Endpoint)
    ensures
        caller == old(msg).m_source,
        final(msg).m_source == 0,
        final(msg).m_type == code,
        final(msg).payload == old(msg).payload,
{
    let caller: Endpoint = msg.m_source;
    msg.m_type = code;
    msg.m_source = 0;
    caller
}

/// A process used up its quantum: admit it again, unless there is no room to
/// manage it, in which case it stays blocked. There is no reply.
pub fn handle_no_quantum(p: &mut Policy, preempted: Endpoint) -> (calls: Vec<Message>)
    requires
        old(p).wf(),
    ensures
        final(p).wf(),
        readmitted(old(p).procs@, final(p).procs@, preempted, calls@),
{
    let mut calls: Vec<Message> = Vec::new();
    match policy::schedule_proc(p, endpoint_proc(preempted)) {
        Some((priority, quantum)) => {
            calls.push(sys_schedule(preempted, priority, quantum));
        },
        None => {},
    }
    calls
}

/// Begin scheduling the request's process at its band and quantum: claim it,
/// record it, admit it, reply.
pub fn handle_start(p: &mut Policy, msg: &mut Message) -> (r: Outcome)
    requires
        old(p).wf(),
    ensures
        final(p).wf(),
        started(old(p).procs@, final(p).procs@, old(msg).payload@, r.calls@),
        r.reply_to == Some(old(msg).m_source),
        final(msg).carries(OK, old(msg).payload@),
{
    let target: Endpoint = rd_i32(msg, 0);
    let priority: i32 = rd_i32(msg, 4);
    let quantum: i32 = rd_i32(msg, 8);
    let mut calls: Vec<Message> = Vec::new();
    calls.push(sys_schedctl(target, 0));
    let _ = policy::record(p, endpoint_proc(target), priority as u8, quantum);
    calls.push(sys_schedule(target, priority as u8, quantum));
    Outcome { calls, reply_to: Some(reply(msg, OK)) }
}

/// Stop scheduling the request's process and hand it back to the kernel.
pub fn handle_stop(p: &mut Policy, msg: &mut Message) -> (r: Outcome)
    requires
        old(p).wf(),
    ensures
        final(p).wf(),
        stopped(old(p).procs@, final(p).procs@, old(msg).payload@, r.calls@),
        r.reply_to == Some(old(msg).m_source),
        final(msg).carries(OK, old(msg).payload@),
{
    let target: Endpoint = rd_i32(msg, 0);
    let mut calls: Vec<Message> = Vec::new();
    calls.push(sys_schedctl(target, SCHEDCTL_FLAG_KERNEL));
    policy::forget(p, endpoint_proc(target));
    Outcome { calls, reply_to: Some(reply(msg, OK)) }
}

/// Change the band of the request's process; its quantum stays what it was
/// started with. One that cannot be managed is still admitted, at the default
/// quantum.
pub fn handle_set_nice(p: &mut Policy, msg: &mut Message) -> (r: Outcome)
    requires
        old(p).wf(),
    ensures
        final(p).wf(),
        reniced(old(p).procs@, final(p).procs@, old(msg).payload@, r.calls@),
        r.reply_to == Some(old(msg).m_source),
        final(msg).carries(OK, old(msg).payload@),
{
    let target: Endpoint = rd_i32(msg, 0);
    let priority: i32 = rd_i32(msg, 4);
    let quantum: i32 = match policy::renice(p, endpoint_proc(target), priority as u8) {
        Some(q) => q,
        None => QUANTUM,
    };
    let mut calls: Vec<Message> = Vec::new();
    calls.push(sys_schedule(target, priority as u8, quantum));
    Outcome { calls, reply_to: Some(reply(msg, OK)) }
}

/// Which handler a request goes to.
#[derive(Copy, Clone, Debug, PartialEq, Eq, Structural)]
pub enum Request {
    NoQuantum,
    Start,
    Stop,
    SetNice,
    Unknown,
}

/// The request a message type names.
pub open spec fn request_of(m_type: i32) -> Request {
    if m_type == SCHEDULING_NO_QUANTUM {
        Request::NoQuantum
    } else if m_type == SCHEDULING_START {
        Request::Start
    } else if m_type == SCHEDULING_STOP {
        Request::Stop
    } else if m_type == SCHEDULING_SET_NICE {
        Request::SetNice
    } else {
        Request::Unknown
    }
}

/// Tell the requests apart.
pub fn request(m_type: i32) -> (r: Request)
    ensures
        r == request_of(m_type),
{
    if m_type == SCHEDULING_NO_QUANTUM {
        Request::NoQuantum
    } else if m_type == SCHEDULING_START {
        Request::Start
    } else if m_type == SCHEDULING_STOP {
        Request::Stop
    } else if m_type == SCHEDULING_SET_NICE {
        Request::SetNice
    } else {
        Request::Unknown
    }
}

/// Serve one message. A request that is not the scheduler's is dropped.
pub fn serve(p: &mut Policy, msg: &mut Message) -> (r: Outcome)
    requires
        old(p).wf(),
    ensures
        final(p).wf(),
        ({
            let t = old(p).procs@;
            let u = final(p).procs@;
            let q = old(msg).payload@;
            match request_of(old(msg).m_type) {
                Request::NoQuantum => readmitted(t, u, old(msg).m_source, r.calls@),
                Request::Start => started(t, u, q, r.calls@),
                Request::Stop => stopped(t, u, q, r.calls@),
                Request::SetNice => reniced(t, u, q, r.calls@),
                Request::Unknown => r.calls@.len() == 0 && u == t,
            }
        }),
        r.reply_to == (match request_of(old(msg).m_type) {
            Request::NoQuantum | Request::Unknown => None,
            _ => Some(old(msg).m_source),
        }),
        r.reply_to is Some ==> final(msg).carries(OK, old(msg).payload@),
        r.reply_to is None ==> *final(msg) == *old(msg),
{
    match request(msg.m_type) {
        Request::NoQuantum => Outcome {
            calls: handle_no_quantum(p, msg.m_source),
            reply_to: None,
        },
        Request::Start => handle_start(p, msg),
        Request::Stop => handle_stop(p, msg),
        Request::SetNice => handle_set_nice(p, msg),
        Request::Unknown => Outcome { calls: Vec::new(), reply_to: None },
    }
}

/// What a scheduling call says reads back: whom, which band, how many ticks.
pub proof fn law_schedule_call_reads_back(target: Endpoint, priority: u8, quantum: i32)
    ensures
        payload::i32_field(schedule_payload(target, priority, quantum), 0) == target,
        payload::i32_field(schedule_payload(target, priority, quantum), 4) == priority,
        payload::i32_field(schedule_payload(target, priority, quantum), 8) == quantum,
{
    let p0 = payload::zero_payload();
    let p1 = payload::with_i32(p0, 0, target);
    let p2 = payload::with_i32(p1, 4, priority as i32);
    payload::law_i32_round_trip(p0, 0, target);
    payload::law_i32_round_trip(p1, 4, priority as i32);
    payload::law_i32_round_trip(p2, 8, quantum);
    payload::law_writes_do_not_disturb(p1, 4, priority as i32, 0, 0);
    payload::law_writes_do_not_disturb(p2, 8, quantum, 0, 0);
    payload::law_writes_do_not_disturb(p2, 8, quantum, 0, 4);
}

/// What a claiming or releasing call says reads back.
pub proof fn law_claim_call_reads_back(target: Endpoint, flags: i32)
    ensures
        payload::i32_field(schedctl_payload(target, flags), 0) == flags,
        payload::i32_field(schedctl_payload(target, flags), 4) == target,
{
    let p0 = payload::zero_payload();
    let p1 = payload::with_i32(p0, 0, flags);
    payload::law_i32_round_trip(p0, 0, flags);
    payload::law_i32_round_trip(p1, 4, target);
    payload::law_writes_do_not_disturb(p1, 4, target, 0, 0);
}

/// A start request is carried out as asked: the kernel is told the band `b` and the
/// quantum of the request, and where there is room that is what the process is
/// managed at from now on. A process claimed is claimed before it is admitted, and
/// no other process is touched.
pub proof fn law_start_keeps_band_and_quantum(
    t: Seq<SchedProc>,
    u: Seq<SchedProc>,
    q: Seq<u8>,
    calls: Seq<Message>,
)
    requires
        started(t, u, q, calls),
        0 <= payload::i32_field(q, 4) < 256,
    ensures
        calls.len() == 2,
        calls[0].m_type == SYS_SCHEDCTL,
        payload::i32_field(calls[0].payload@, 0) == 0,
        payload::i32_field(calls[0].payload@, 4) == payload::i32_field(q, 0),
        calls[1].m_type == SYS_SCHEDULE,
        payload::i32_field(calls[1].payload@, 0) == payload::i32_field(q, 0),
        payload::i32_field(calls[1].payload@, 4) == payload::i32_field(q, 4),
        payload::i32_field(calls[1].payload@, 8) == payload::i32_field(q, 8),
        policy::manageable(t, proc_of(payload::i32_field(q, 0))) ==> (policy::params(
            u,
            proc_of(payload::i32_field(q, 0)),
        ) matches Some((band, quantum)) && band == payload::i32_field(q, 4) && quantum
            == payload::i32_field(q, 8)),
        forall|o: i32|
            o != proc_of(payload::i32_field(q, 0)) ==> policy::params(u, o) == policy::params(t, o),
{
    let target = payload::i32_field(q, 0);
    law_claim_call_reads_back(target, 0);
    law_schedule_call_reads_back(target, band_of(q), payload::i32_field(q, 8));
    if policy::manageable(t, proc_of(target)) {
        policy::law_recorded_is_scheduled(t, proc_of(target), band_of(q), payload::i32_field(q, 8));
    }
}

/// A renice moves a process to the band of the request with the quantum it had (the
/// default when it is new): the kernel is told so, and so it is managed from now
/// on. No other process is touched.
pub proof fn law_renice_keeps_band(
    t: Seq<SchedProc>,
    u: Seq<SchedProc>,
    q: Seq<u8>,
    calls: Seq<Message>,
)
    requires
        reniced(t, u, q, calls),
        0 <= payload::i32_field(q, 4) < 256,
    ensures
        ({
            let nr = proc_of(payload::i32_field(q, 0));
            let quantum = match policy::params(t, nr) {
                Some((_, had)) => had,
                None => QUANTUM,
            };
            &&& calls.len() == 1
            &&& calls[0].m_type == SYS_SCHEDULE
            &&& payload::i32_field(calls[0].payload@, 0) == payload::i32_field(q, 0)
            &&& payload::i32_field(calls[0].payload@, 4) == payload::i32_field(q, 4)
            &&& payload::i32_field(calls[0].payload@, 8) == quantum
            &&& policy::manageable(t, nr) ==> (policy::params(u, nr) matches Some((band, ticks))
                && band == payload::i32_field(q, 4) && ticks == quantum)
            &&& forall|o: i32| o != nr ==> policy::params(u, o) == policy::params(t, o)
        }),
{
    let target = payload::i32_field(q, 0);
    let nr = proc_of(target);
    let quantum = policy::kept_quantum(t, nr);
    law_schedule_call_reads_back(target, band_of(q), quantum);
    if policy::manageable(t, nr) {
        policy::law_recorded_is_scheduled(t, nr, band_of(q), quantum);
    }
}

/// A stop releases the process to the kernel, which hears the releasing flag, and
/// forgets it; no other process is touched.
pub proof fn law_stop_releases_and_forgets(
    t: Seq<SchedProc>,
    u: Seq<SchedProc>,
    q: Seq<u8>,
    calls: Seq<Message>,
)
    requires
        policy::wf(t),
        stopped(t, u, q, calls),
    ensures
        calls.len() == 1,
        calls[0].m_type == SYS_SCHEDCTL,
        payload::i32_field(calls[0].payload@, 0) == SCHEDCTL_FLAG_KERNEL,
        payload::i32_field(calls[0].payload@, 4) == payload::i32_field(q, 0),
        policy::params(u, proc_of(payload::i32_field(q, 0))) is None,
        forall|o: i32|
            o != proc_of(payload::i32_field(q, 0)) ==> policy::params(u, o) == policy::params(t, o),
{
    let target = payload::i32_field(q, 0);
    law_claim_call_reads_back(target, SCHEDCTL_FLAG_KERNEL);
    policy::law_forgotten_is_unknown(t, proc_of(target));
    policy::law_forgetting_touches_no_other(t, proc_of(target));
}

/// What a process was started or reniced at is what it is admitted at when its
/// quantum runs out, again and again: the call the kernel gets carries the band and
/// the quantum on record, and the record stays as it is. One that is not on record
/// gets the defaults, and is then on record at those.
pub proof fn law_readmitted_at_its_own_band(
    t: Seq<SchedProc>,
    u: Seq<SchedProc>,
    preempted: Endpoint,
    calls: Seq<Message>,
)
    requires
        readmitted(t, u, preempted, calls),
        policy::manageable(t, proc_of(preempted)),
    ensures
        calls.len() == 1,
        calls[0].m_type == SYS_SCHEDULE,
        payload::i32_field(calls[0].payload@, 0) == preempted,
        policy::params(u, proc_of(preempted)) matches Some((band, quantum))
            && payload::i32_field(calls[0].payload@, 4) == band && payload::i32_field(
            calls[0].payload@,
            8,
        ) == quantum,
        policy::params(t, proc_of(preempted)) is Some ==> u == t,
        policy::params(t, proc_of(preempted)) is None ==> policy::params(u, proc_of(preempted))
            == Some((8u8, 5i32)),
        forall|o: i32|
            o != proc_of(preempted) ==> policy::params(u, o) == policy::params(t, o),
{
    let nr = proc_of(preempted);
    if policy::managed(t, nr) {
        let (band, quantum) = policy::params(t, nr)->0;
        law_schedule_call_reads_back(preempted, band, quantum);
    } else {
        law_schedule_call_reads_back(preempted, USER_Q, QUANTUM);
        policy::law_recorded_is_scheduled(t, nr, USER_Q, QUANTUM);
    }
}

/// With a full table a stranger is not admitted, and nobody is displaced for it.
pub proof fn law_no_room_admits_nobody(
    t: Seq<SchedProc>,
    u: Seq<SchedProc>,
    preempted: Endpoint,
    calls: Seq<Message>,
)
    requires
        readmitted(t, u, preempted, calls),
        !policy::manageable(t, proc_of(preempted)),
    ensures
        calls.len() == 0,
        u == t,
{
}

/// Each request number means one thing, and no other number means anything.
pub proof fn law_requests_are_told_apart(m_type: i32)
    ensures
        request_of(m_type) == Request::NoQuantum <==> m_type == SCHEDULING_NO_QUANTUM,
        request_of(m_type) == Request::Start <==> m_type == SCHEDULING_START,
        request_of(m_type) == Request::Stop <==> m_type == SCHEDULING_STOP,
        request_of(m_type) == Request::SetNice <==> m_type == SCHEDULING_SET_NICE,
{
}

} // verus!
