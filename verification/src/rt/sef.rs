//! The startup handshake and the control-aware receive loop, as decisions: the
//! caller performs what a step asks for and hands back the outcome.
use vstd::prelude::*;
use vstd::slice::slice_subrange;
use crate::abi::callnr::{GET_WHOAMI, SYS_GETINFO_NAME_LEN};
use crate::abi::com;
use crate::abi::com::{boot_endpoint, RS_PROC_NR};
use crate::abi::endpoint::Endpoint;
use crate::abi::errno::OK;
use crate::abi::message::Message;
use crate::bytes::put_bytes;
use crate::rt::classify;
use crate::rt::classify::SefEvent;
use crate::rt::kcall::sys_getinfo;
use crate::rt::payload;
use crate::rt::payload::rd_i32;

verus! {

/// What every server says on the debug channel once it knows itself.
pub const READY_LINE: &'static str = "sef ready";

/// Where the kernel puts the caller's name in its answer.
pub const WHOAMI_NAME_OFF: usize = 12;

/// Which callbacks a server registers with the framework.
#[derive(Copy, Clone, Debug, PartialEq, Eq, Structural)]
pub struct SefConfig {
    /// Run once after the startup handshake.
    pub init_fresh: bool,
    /// Run for each signal.
    pub signal_handler: bool,
}

/// A live session: the server's own endpoint and name, and whether it handles
/// signals.
#[derive(Copy, Clone, Debug, PartialEq, Eq)]
pub struct Sef {
    pub endpoint: Endpoint,
    pub name: [u8; 16],
    pub signal_handler: bool,
}

/// Where a startup stands, and so what the server does next.
#[derive(Copy, Clone, Debug, PartialEq, Eq)]
pub enum Startup {
    /// Ask the kernel who the server is.
    Ask,
    /// Print [`READY_LINE`] on the debug channel.
    Announce(Sef),
    /// Run the fresh-init callback with the endpoint and the name.
    Init(Sef),
    /// Enter the receive loop.
    Ready(Sef),
    /// Give up with this error.
    Failed(i32),
}

/// `sef` is what the kernel's answer `p` says of the server.
pub open spec fn learned(sef: Sef, p: Seq<u8>, cfg: SefConfig) -> bool {
    &&& sef.endpoint == payload::i32_field(p, 0)
    &&& sef.name@ == p.subrange(12, 28)
    &&& sef.signal_handler == cfg.signal_handler
}

/// How a startup goes on from `s`, given the result of what it last did.
pub open spec fn startup_next(
    s: Startup,
    next: Startup,
    cfg: SefConfig,
    rc: i32,
    p: Seq<u8>,
) -> bool {
    match s {
        Startup::Ask => if rc != OK {
            next == Startup::Failed(rc)
        } else {
            next is Announce && learned(next->Announce_0, p, cfg)
        },
        Startup::Announce(sef) => next == (if cfg.init_fresh {
            Startup::Init(sef)
        } else {
            Startup::Ready(sef)
        }),
        Startup::Init(sef) => next == (if rc != OK {
            Startup::Failed(rc)
        } else {
            Startup::Ready(sef)
        }),
        Startup::Ready(_) | Startup::Failed(_) => next == s,
    }
}

/// The question every startup begins with.
pub fn whoami_request() -> (m: Message)
    ensures
        m.m_source == 0,
        m.m_type == crate::abi::callnr::SYS_GETINFO,
        m.payload@ == payload::with_i32(payload::zero_payload(), 0, GET_WHOAMI),
{
    sys_getinfo(GET_WHOAMI)
}

/// One step of the startup handshake. `rc` is the result of what the state asked
/// for, and `reply` the kernel's answer in the first step. Announcing is
/// best-effort: its result is not looked at.
pub fn sef_startup(s: Startup, cfg: SefConfig, rc: i32, reply: &Message) -> (next: Startup)
    ensures
        startup_next(s, next, cfg, rc, reply.payload@),
{
    match s {
        Startup::Ask => {
            if rc != OK {
                return Startup::Failed(rc);
            }
            let mut name = [0u8;16];
            put_bytes(
                &mut name,
                0,
                slice_subrange(
                    reply.payload.as_slice(),
                    WHOAMI_NAME_OFF,
                    WHOAMI_NAME_OFF + SYS_GETINFO_NAME_LEN,
                ),
            );
            assert(name@ =~= reply.payload@.subrange(12, 28));
            Startup::Announce(
                Sef { endpoint: rd_i32(reply, 0), name, signal_handler: cfg.signal_handler },
            )
        },
        Startup::Announce(sef) => if cfg.init_fresh {
            Startup::Init(sef)
        } else {
            Startup::Ready(sef)
        },
        Startup::Init(sef) => if rc != OK {
            Startup::Failed(rc)
        } else {
            Startup::Ready(sef)
        },
        Startup::Ready(_) | Startup::Failed(_) => s,
    }
}

/// What a server does with what it received.
#[derive(Copy, Clone, Debug, PartialEq, Eq, Structural)]
pub enum Received {
    /// Hand this result to the server: `OK` with an application message, or the
    /// error of the receive.
    Return(i32),
    /// Acknowledge the heartbeat with a notification, whatever comes of it, and
    /// receive again.
    Acknowledge(Endpoint),
    /// Run the signal callback and receive again.
    Handle(i32),
    /// Receive again.
    Again,
}

impl Sef {
    /// This server's own endpoint, as learned at startup.
    pub fn endpoint(&self) -> (e: Endpoint)
        ensures
            e == self.endpoint,
    {
        self.endpoint
    }

    /// This server's name, NUL-padded, as learned at startup.
    pub fn name(&self) -> (n: &[u8; 16])
        ensures
            *n == self.name,
    {
        &self.name
    }

    /// What comes of one receive.
    pub open spec fn received(self, rc: i32, source: int, m_type: i32, p: Seq<u8>) -> Received {
        if rc != OK {
            Received::Return(rc)
        } else {
            match classify::event_of(source, m_type, p) {
                SefEvent::Application => Received::Return(OK),
                SefEvent::Ping => Received::Acknowledge(com::boot_spec(RS_PROC_NR as int) as i32),
                SefEvent::Signal(signo) => if self.signal_handler {
                    Received::Handle(signo)
                } else {
                    Received::Again
                },
                SefEvent::Init => Received::Again,
            }
        }
    }

    /// Decide what to do after a receive returned `rc` with `msg`: control
    /// messages are handled here, and only application traffic reaches the
    /// server.
    pub fn receive(&self, rc: i32, msg: &Message) -> (r: Received)
        ensures
            r == self.received(rc, msg.m_source as int, msg.m_type, msg.payload@),
    {
        if rc != OK {
            return Received::Return(rc);
        }
        match classify::classify(msg) {
            SefEvent::Application => Received::Return(OK),
            SefEvent::Ping => Received::Acknowledge(boot_endpoint(RS_PROC_NR)),
            SefEvent::Signal(signo) => if self.signal_handler {
                Received::Handle(signo)
            } else {
                Received::Again
            },
            SefEvent::Init => Received::Again,
        }
    }
}

/// A server never sees control traffic, and is never handed anything but what
/// the kernel delivered without error.
pub proof fn law_only_application_traffic_is_delivered(
    sef: Sef,
    rc: i32,
    source: int,
    m_type: i32,
    p: Seq<u8>,
)
    ensures
        sef.received(rc, source, m_type, p) == Received::Return(OK) <==> rc == OK
            && classify::event_of(source, m_type, p) == SefEvent::Application,
{
}

/// What a server does with what it received: an error is returned, a heartbeat is
/// acknowledged to RS, a signal reaches a registered handler with its number and nobody
/// otherwise, and an init request is passed over.
pub proof fn law_control_traffic_is_handled(
    sef: Sef,
    rc: i32,
    source: int,
    m_type: i32,
    p: Seq<u8>,
)
    ensures
        rc != OK ==> sef.received(rc, source, m_type, p) == Received::Return(rc),
        rc == OK && classify::event_of(source, m_type, p) == SefEvent::Ping ==> sef.received(
            rc,
            source,
            m_type,
            p,
        ) == Received::Acknowledge(RS_PROC_NR),
        rc == OK && classify::event_of(source, m_type, p) == SefEvent::Init ==> sef.received(
            rc,
            source,
            m_type,
            p,
        ) == Received::Again,
        rc == OK && classify::event_of(source, m_type, p) is Signal ==> sef.received(
            rc,
            source,
            m_type,
            p,
        ) == (if sef.signal_handler {
            Received::Handle(payload::i32_field(p, 0))
        } else {
            Received::Again
        }),
{
}

/// A startup that is never refused asks, announces, runs its callback if it has one, and
/// is ready as what the kernel said it is; one that is refused fails with that error and
/// stays failed.
pub proof fn law_startup_runs_to_ready(
    cfg: SefConfig,
    p: Seq<u8>,
    a: Startup,
    b: Startup,
    c: Startup,
    rc: i32,
    any: i32,
)
    requires
        startup_next(Startup::Ask, a, cfg, rc, p),
        startup_next(a, b, cfg, any, p),
        startup_next(b, c, cfg, OK, p),
    ensures
        rc != OK ==> a == Startup::Failed(rc) && b == a && c == a,
        rc == OK ==> (c matches Startup::Ready(sef) && sef.endpoint == payload::i32_field(p, 0)
            && sef.name@ == p.subrange(12, 28) && sef.signal_handler == cfg.signal_handler),
        rc == OK ==> (b is Init <==> cfg.init_fresh),
{
}

} // verus!
