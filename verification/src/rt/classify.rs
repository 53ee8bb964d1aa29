//! Telling a control event apart from application traffic.
use vstd::prelude::*;
use crate::abi::callnr::{KERNEL_CALL, NR_SEF_MSGS, SEF_INIT, SEF_RQ_BASE, SEF_SIGNAL};
use crate::abi::com;
use crate::abi::com::{boot_endpoint, PM_PROC_NR, RS_PROC_NR};
use crate::abi::ipc::NOTIFY_MESSAGE;
use crate::abi::message::Message;
use crate::rt::payload;
use crate::rt::payload::rd_i32;

verus! {

/// An incoming message: a control event the runtime handles itself, or ordinary
/// traffic for the server.
#[derive(Copy, Clone, Debug, PartialEq, Eq, Structural)]
pub enum SefEvent {
    /// A heartbeat, delivered as a notification from RS. Answer with one.
    Ping,
    /// A signal.
    Signal(i32),
    /// A (re-)init request from RS.
    Init,
    /// Not a control message.
    Application,
}

/// What a message is. Every control event depends on its source: a notification
/// is a ping only from RS, an init request counts only from RS, and a signal only
/// from PM or RS.
pub open spec fn event_of(source: int, m_type: i32, p: Seq<u8>) -> SefEvent {
    let rs = com::boot_spec(RS_PROC_NR as int);
    let pm = com::boot_spec(PM_PROC_NR as int);
    if m_type == NOTIFY_MESSAGE && source == rs {
        SefEvent::Ping
    } else if m_type == SEF_SIGNAL && (source == pm || source == rs) {
        SefEvent::Signal(payload::i32_field(p, 0))
    } else if m_type == SEF_INIT && source == rs {
        SefEvent::Init
    } else {
        SefEvent::Application
    }
}

/// Classify a message.
pub fn classify(msg: &Message) -> (e: SefEvent)
    ensures
        e == event_of(msg.m_source as int, msg.m_type, msg.payload@),
{
    let rs: i32 = boot_endpoint(RS_PROC_NR);
    let pm: i32 = boot_endpoint(PM_PROC_NR);
    if msg.m_type == NOTIFY_MESSAGE && msg.m_source == rs {
        SefEvent::Ping
    } else if msg.m_type == SEF_SIGNAL && (msg.m_source == pm || msg.m_source == rs) {
        SefEvent::Signal(rd_i32(msg, 0))
    } else if msg.m_type == SEF_INIT && msg.m_source == rs {
        SefEvent::Init
    } else {
        SefEvent::Application
    }
}

/// Nobody but PM and RS can raise a control event, whatever the message says.
pub proof fn law_control_events_are_not_spoofed(source: int, m_type: i32, p: Seq<u8>)
    requires
        source != com::boot_spec(RS_PROC_NR as int),
    ensures
        event_of(source, m_type, p) != SefEvent::Ping,
        event_of(source, m_type, p) != SefEvent::Init,
        source != com::boot_spec(PM_PROC_NR as int) ==> event_of(source, m_type, p)
            == SefEvent::Application,
{
}

/// What the servers are asked for is never a control event, whoever sends it: the
/// request bands and the control numbers do not meet.
pub proof fn law_requests_are_application_traffic(source: int, m_type: i32, p: Seq<u8>)
    requires
        KERNEL_CALL <= m_type < SEF_RQ_BASE || SEF_RQ_BASE + NR_SEF_MSGS <= m_type < NOTIFY_MESSAGE,
    ensures
        event_of(source, m_type, p) == SefEvent::Application,
{
}

/// What each control message is: a heartbeat is a notification from RS; an init
/// request counts from RS; a signal counts from PM and from RS, and is the number in its
/// payload. Everything else is ordinary traffic.
pub proof fn law_control_events_by_source(source: int, m_type: i32, p: Seq<u8>)
    ensures
        event_of(source, m_type, p) == SefEvent::Ping <==> m_type == NOTIFY_MESSAGE && source
            == RS_PROC_NR,
        event_of(source, m_type, p) == SefEvent::Init <==> m_type == SEF_INIT && source
            == RS_PROC_NR,
        event_of(source, m_type, p) is Signal <==> m_type == SEF_SIGNAL && (source == RS_PROC_NR
            || source == PM_PROC_NR),
        event_of(source, m_type, p) matches SefEvent::Signal(n) ==> n == payload::i32_field(p, 0),
{
}

} // verus!
