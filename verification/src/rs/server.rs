//! The heartbeat: what the server does on an alarm and on an answer.
use vstd::prelude::*;
use crate::abi::callnr::SYS_SETALARM;
use crate::abi::com;
use crate::abi::com::{
    boot_endpoint, CLOCK, DS_PROC_NR, PM_PROC_NR, SCHED_PROC_NR, VFS_PROC_NR, VM_PROC_NR,
};
use crate::abi::endpoint::Endpoint;
use crate::abi::ipc::NOTIFY_MESSAGE;
use crate::abi::message::Message;
use crate::rs::monitor;
use crate::rs::monitor::{Monitor, Server};
use crate::rt::payload;
use crate::rt::payload::wr_u64;
use crate::table;

verus! {

/// Ticks between two heartbeats.
pub const ALARM_PERIOD: u64 = 100;

/// The servers that are watched.
pub open spec fn peers_spec() -> Seq<int> {
    seq![
        com::boot_spec(DS_PROC_NR as int),
        com::boot_spec(VM_PROC_NR as int),
        com::boot_spec(SCHED_PROC_NR as int),
        com::boot_spec(VFS_PROC_NR as int),
        com::boot_spec(PM_PROC_NR as int),
    ]
}

/// The boot endpoints of the servers that are watched.
pub fn peers() -> (p: [Endpoint; 5])
    ensures
        forall|i: int| 0 <= i < 5 ==> #[trigger] p@[i] == peers_spec()[i],
{
    [
        boot_endpoint(DS_PROC_NR),
        boot_endpoint(VM_PROC_NR),
        boot_endpoint(SCHED_PROC_NR),
        boot_endpoint(VFS_PROC_NR),
        boot_endpoint(PM_PROC_NR),
    ]
}

/// Build the call that arms the one-shot alarm `delta` ticks out.
pub fn sys_setalarm(delta: u64) -> (m: Message)
    ensures
        m.carries(SYS_SETALARM, payload::with_u64(payload::zero_payload(), 0, delta)),
{
    let mut m = Message::request(SYS_SETALARM);
    wr_u64(&mut m, 0, delta);
    m
}

/// What a heartbeat sends: a notification to each of these, then this call to
/// the kernel.
pub struct Beat {
    pub ping: [Endpoint; 5],
    pub alarm: Message,
    /// Peers that count as dead. They are detected, not restarted.
    pub dead: u32,
}

impl Beat {
    /// The beat pings every peer and arms the next alarm.
    pub open spec fn wf(self) -> bool {
        &&& forall|i: int| 0 <= i < 5 ==> #[trigger] self.ping@[i] == peers_spec()[i]
        &&& self.alarm.carries(
            SYS_SETALARM,
            payload::with_u64(payload::zero_payload(), 0, ALARM_PERIOD),
        )
    }
}

/// Begin monitoring: take up the peers and send the first round, so that the
/// first alarm tallies real answers.
pub fn start(m: &mut Monitor) -> (b: Beat)
    ensures
        b.wf(),
        b.dead == 0,
        final(m).peers@ == monitor::watching(b.ping@),
{
    let ping = peers();
    let _ = monitor::init(m, ping.as_slice());
    Beat { ping, alarm: sys_setalarm(ALARM_PERIOD), dead: 0 }
}

/// An alarm: close out the round, ping every peer again, and arm the next.
pub fn handle_alarm(m: &mut Monitor) -> (b: Beat)
    ensures
        b.wf(),
        final(m).peers@ == monitor::swept(old(m).peers@),
        b.dead == table::count(final(m).peers@, monitor::dead()),
{
    let dead: u32 = monitor::sweep(m);
    Beat { ping: peers(), alarm: sys_setalarm(ALARM_PERIOD), dead }
}

/// A notification from the clock is an alarm.
pub open spec fn is_alarm(source: i32, m_type: i32) -> bool {
    m_type == NOTIFY_MESSAGE && source == com::boot_spec(CLOCK as int)
}

/// A message of type `m_type` from `source` takes the tallies from `t` to `u`, and
/// starts beat `b` if it is an alarm.
pub open spec fn served(
    t: Seq<Server>,
    u: Seq<Server>,
    source: i32,
    m_type: i32,
    b: Option<Beat>,
) -> bool {
    if is_alarm(source, m_type) {
        &&& b is Some
        &&& b->0.wf()
        &&& u == monitor::swept(t)
        &&& b->0.dead == table::count(u, monitor::dead())
    } else {
        &&& b is None
        &&& u == (if m_type == NOTIFY_MESSAGE {
            monitor::answered(t, source)
        } else {
            t
        })
    }
}

/// Serve one message: an alarm starts a new round, a notification from anyone
/// else is an answer, and the rest is dropped.
pub fn serve(m: &mut Monitor, msg: &Message) -> (b: Option<Beat>)
    ensures
        served(old(m).peers@, final(m).peers@, msg.m_source, msg.m_type, b),
{
    if msg.m_type == NOTIFY_MESSAGE {
        if msg.m_source == boot_endpoint(CLOCK) {
            return Some(handle_alarm(m));
        }
        let _ = monitor::mark_alive(m, msg.m_source);
    }
    None
}

/// Only a notification from the clock starts a round, and it starts one whole: the
/// directory, the memory server, the scheduler, the file server and the process manager
/// are each pinged at their boot endpoints, and the next alarm is set a hundred ticks
/// out.
pub proof fn law_alarm_starts_a_round(
    t: Seq<Server>,
    u: Seq<Server>,
    source: i32,
    m_type: i32,
    b: Option<Beat>,
)
    requires
        served(t, u, source, m_type, b),
    ensures
        b is Some <==> m_type == NOTIFY_MESSAGE && source == CLOCK + 0x8000,
        b matches Some(beat) ==> {
            &&& beat.ping@[0] == DS_PROC_NR
            &&& beat.ping@[1] == VM_PROC_NR
            &&& beat.ping@[2] == SCHED_PROC_NR
            &&& beat.ping@[3] == VFS_PROC_NR
            &&& beat.ping@[4] == PM_PROC_NR
            &&& beat.alarm.m_type == SYS_SETALARM
            &&& payload::u64_field(beat.alarm.payload@, 0) == 100
        },
{
    payload::law_u64_round_trip(payload::zero_payload(), 0, ALARM_PERIOD);
    if let Some(beat) = b {
        assert(beat.ping@[0] == peers_spec()[0]);
        assert(beat.ping@[1] == peers_spec()[1]);
        assert(beat.ping@[2] == peers_spec()[2]);
        assert(beat.ping@[3] == peers_spec()[3]);
        assert(beat.ping@[4] == peers_spec()[4]);
    }
}

/// A peer that answers between two alarms has no miss after the second, and one that
/// does not has one more than before.
pub proof fn law_answer_between_alarms_counts(
    t: Seq<Server>,
    u: Seq<Server>,
    v: Seq<Server>,
    source: i32,
    tick: i32,
    b: Option<Beat>,
    i: int,
)
    requires
        served(t, u, source, NOTIFY_MESSAGE, None),
        served(u, v, tick, NOTIFY_MESSAGE, b),
        b is Some,
        0 <= i < t.len(),
        t[i].in_use,
        !t[i].seen,
        t[i].missed < u32::MAX,
        forall|k: int|
            0 <= k < t.len() && k != i && (#[trigger] t[k]).in_use ==> t[k].endpoint
                != t[i].endpoint,
    ensures
        source == t[i].endpoint ==> v[i].missed == 0,
        source != t[i].endpoint ==> v[i].missed == t[i].missed + 1,
        v[i].endpoint == t[i].endpoint && v[i].in_use && !v[i].seen,
{
    if source == t[i].endpoint {
        monitor::law_answer_marks_its_sender(t, source, i);
    } else {
        table::lemma_first(t, monitor::watches(source));
    }
    monitor::law_round_counts_one_miss(u, i);
}

/// What is not a notification changes no tally and starts no round.
pub proof fn law_other_traffic_is_dropped(
    t: Seq<Server>,
    u: Seq<Server>,
    source: i32,
    m_type: i32,
    b: Option<Beat>,
)
    requires
        served(t, u, source, m_type, b),
        m_type != NOTIFY_MESSAGE,
    ensures
        u == t,
        b is None,
{
}

} // verus!
