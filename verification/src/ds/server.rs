//! Answering directory requests.
use vstd::prelude::*;
use vstd::slice::slice_subrange;
use crate::abi::callnr::{DS_CHECK, DS_PUBLISH, DS_RETRIEVE};
use crate::abi::endpoint::Endpoint;
use crate::abi::errno::{ESRCH, OK};
use crate::abi::message::Message;
use crate::bytes::put_bytes;
use crate::ds::registry;
use crate::ds::registry::{Entry, Registry};
use crate::rt::ds;
use crate::rt::ds::DS_VALUE_OFF;
use crate::rt::payload;
use crate::rt::payload::wr_i32;
use crate::table;

verus! {

/// The key a request names.
pub open spec fn request_key(p: Seq<u8>) -> Seq<u8> {
    p.subrange(0, 16)
}

/// Read the NUL-padded key of a request.
pub fn rd_key(m: &Message) -> (k: [u8; 16])
    ensures
        k@ == request_key(m.payload@),
{
    let mut k = [0u8;16];
    put_bytes(&mut k, 0, slice_subrange(m.payload.as_slice(), 0, 16));
    assert(k@ =~= request_key(m.payload@));
    k
}

/// Record the directory server's own binding, in process: a request to itself
/// would never be answered.
pub fn ds_init(r: &mut Registry, endpoint: Endpoint, name: &[u8; 16]) -> (rc: i32)
    requires
        old(r).wf(),
    ensures
        final(r).wf(),
        rc == registry::publish_code(old(r).entries@, name@),
        rc == OK ==> registry::published(old(r).entries@, final(r).entries@, name@, endpoint),
        rc != OK ==> final(r).entries@ == old(r).entries@,
{
    registry::publish(r, name, endpoint)
}

/// Bind the request's key to the endpoint the kernel stamped on it. `msg` becomes
/// the reply; the result is whom to send it to.
pub fn handle_publish(r: &mut Registry, msg: &mut Message) -> (caller: Endpoint)
    requires
        old(r).wf(),
    ensures
        final(r).wf(),
        caller == old(msg).m_source,
        final(msg).m_source == 0,
        final(msg).m_type == registry::publish_code(
            old(r).entries@,
            request_key(old(msg).payload@),
        ),
        final(msg).payload == old(msg).payload,
        final(msg).m_type == OK ==> registry::published(
            old(r).entries@,
            final(r).entries@,
            request_key(old(msg).payload@),
            caller,
        ),
        final(msg).m_type != OK ==> final(r).entries@ == old(r).entries@,
{
    let caller: Endpoint = msg.m_source;
    let key = rd_key(msg);
    msg.m_type = registry::publish(r, &key, caller);
    msg.m_source = 0;
    caller
}

/// What a lookup of `key` answers: the result, and the payload.
pub open spec fn retrieve_reply(t: Seq<Entry>, p: Seq<u8>) -> (i32, Seq<u8>) {
    match registry::lookup(t, request_key(p)) {
        Some(ep) => (OK, payload::with_i32(p, DS_VALUE_OFF as int, ep)),
        None => (ESRCH, p),
    }
}

/// Look up the request's key: the endpoint, or `ESRCH`.
pub fn handle_retrieve(r: &Registry, msg: &mut Message) -> (caller: Endpoint)
    ensures
        caller == old(msg).m_source,
        final(msg).m_source == 0,
        (final(msg).m_type, final(msg).payload@) == retrieve_reply(r.entries@, old(msg).payload@),
{
    let caller: Endpoint = msg.m_source;
    let key = rd_key(msg);
    let reply_type: i32 = match registry::retrieve(r, &key) {
        Some(ep) => {
            wr_i32(msg, DS_VALUE_OFF, ep);
            OK
        },
        None => ESRCH,
    };
    msg.m_type = reply_type;
    msg.m_source = 0;
    caller
}

/// The answer to whether the request's key is bound.
pub open spec fn check_reply(t: Seq<Entry>, p: Seq<u8>) -> Seq<u8> {
    payload::with_i32(
        p,
        DS_VALUE_OFF as int,
        if registry::lookup(t, request_key(p)) is Some {
            1
        } else {
            0
        },
    )
}

/// Whether the request's key is bound, as a status: absence is no error.
pub fn handle_check(r: &Registry, msg: &mut Message) -> (caller: Endpoint)
    ensures
        caller == old(msg).m_source,
        final(msg).m_source == 0,
        final(msg).m_type == OK,
        final(msg).payload@ == check_reply(r.entries@, old(msg).payload@),
{
    let caller: Endpoint = msg.m_source;
    let key = rd_key(msg);
    let present: i32 = if registry::check(r, &key) {
        1
    } else {
        0
    };
    wr_i32(msg, DS_VALUE_OFF, present);
    msg.m_type = OK;
    msg.m_source = 0;
    caller
}

/// Serving `msg` on directory `t` leaves directory `u`, and `reply` to be sent to `to`.
pub open spec fn served(
    t: Seq<Entry>,
    u: Seq<Entry>,
    msg: Message,
    reply: Message,
    to: Option<Endpoint>,
) -> bool {
    let p = msg.payload@;
    let key = request_key(p);
    if msg.m_type == DS_PUBLISH {
        &&& to == Some(msg.m_source)
        &&& reply.m_source == 0
        &&& reply.m_type == registry::publish_code(t, key)
        &&& reply.payload@ == p
        &&& if reply.m_type == OK {
            registry::published(t, u, key, msg.m_source)
        } else {
            u == t
        }
    } else if msg.m_type == DS_RETRIEVE {
        &&& to == Some(msg.m_source)
        &&& reply.m_source == 0
        &&& (reply.m_type, reply.payload@) == retrieve_reply(t, p)
        &&& u == t
    } else if msg.m_type == DS_CHECK {
        &&& to == Some(msg.m_source)
        &&& reply.m_source == 0
        &&& reply.m_type == OK
        &&& reply.payload@ == payload::with_i32(
            p,
            DS_VALUE_OFF as int,
            if registry::lookup(t, key) is Some {
                1
            } else {
                0
            },
        )
        &&& u == t
    } else {
        to is None && reply == msg && u == t
    }
}

/// Serve one request: the endpoint to send `msg` back to, or nothing for a
/// request that is not the directory's.
pub fn serve(r: &mut Registry, msg: &mut Message) -> (reply_to: Option<Endpoint>)
    requires
        old(r).wf(),
    ensures
        final(r).wf(),
        served(old(r).entries@, final(r).entries@, *old(msg), *final(msg), reply_to),
{
    if msg.m_type == DS_PUBLISH {
        Some(handle_publish(r, msg))
    } else if msg.m_type == DS_RETRIEVE {
        Some(handle_retrieve(r, msg))
    } else if msg.m_type == DS_CHECK {
        Some(handle_check(r, msg))
    } else {
        None
    }
}

/// The directory reads the key that a client writes.
pub proof fn law_key_reads_back(name: Seq<u8>)
    requires
        name.len() == 16,
    ensures
        request_key(ds::key_payload(name)) == name,
{
    assert(request_key(ds::key_payload(name)) =~= name);
}

/// A server that publishes itself can be found: once its request has been
/// granted, a lookup under the same name is answered with the endpoint the kernel
/// stamped on that request, at the place where a client reads it.
pub proof fn law_published_server_is_found(
    before: Registry,
    after: Registry,
    name: Seq<u8>,
    source: i32,
)
    requires
        name.len() == 16,
        registry::publish_code(before.entries@, name) == OK,
        registry::published(before.entries@, after.entries@, name, source),
    ensures
        ({
            let (code, p) = retrieve_reply(after.entries@, ds::key_payload(name));
            code == OK && payload::i32_field(p, DS_VALUE_OFF as int) == source
        }),
{
    law_key_reads_back(name);
    registry::law_publish_then_retrieve(before.entries@, after.entries@, name, source);
    payload::law_i32_round_trip(ds::key_payload(name), DS_VALUE_OFF as int, source);
}

/// A server that was granted its name is found under it by whoever asks: the answer goes
/// to the one who asks and carries, at the place where a client reads it, the endpoint
/// of the one who published. A name is the first sixteen bytes; nothing else in either
/// request matters.
pub proof fn law_published_name_is_answered(
    t: Seq<Entry>,
    u: Seq<Entry>,
    v: Seq<Entry>,
    publish: Message,
    granted: Message,
    ask: Message,
    answer: Message,
    x: Option<Endpoint>,
    y: Option<Endpoint>,
)
    requires
        publish.m_type == DS_PUBLISH,
        ask.m_type == DS_RETRIEVE,
        served(t, u, publish, granted, x),
        served(u, v, ask, answer, y),
        granted.m_type == OK,
        ask.payload@.subrange(0, 16) == publish.payload@.subrange(0, 16),
    ensures
        x == Some(publish.m_source),
        y == Some(ask.m_source),
        answer.m_type == OK,
        payload::i32_field(answer.payload@, 16) == publish.m_source,
        forall|i: int|
            0 <= i < 96 && !(16 <= i < 20) ==> #[trigger] answer.payload@[i] == ask.payload@[i],
        v == u,
{
    let key = request_key(publish.payload@);
    registry::law_publish_then_retrieve(t, u, key, publish.m_source);
    payload::law_i32_round_trip(ask.payload@, 16, publish.m_source);
    payload::law_i32_is_little_endian(ask.payload@, 16, publish.m_source);
}

/// Publishing one name changes the answer to no other, whoever asks.
pub proof fn law_publishing_disturbs_no_other_name(
    t: Seq<Entry>,
    u: Seq<Entry>,
    publish: Message,
    reply: Message,
    x: Option<Endpoint>,
    p: Seq<u8>,
)
    requires
        publish.m_type == DS_PUBLISH,
        served(t, u, publish, reply, x),
        p.subrange(0, 16) != publish.payload@.subrange(0, 16) || reply.m_type != OK,
    ensures
        retrieve_reply(u, p) == retrieve_reply(t, p),
{
    if reply.m_type == OK {
        registry::law_publish_then_retrieve(
            t,
            u,
            request_key(publish.payload@),
            publish.m_source,
        );
    }
}

/// A name nobody holds is answered `ESRCH`, and the request comes back as it was; a
/// check of it says 0, and of a name that is held 1. Neither changes anything.
pub proof fn law_unknown_name_is_no_endpoint(
    t: Seq<Entry>,
    u: Seq<Entry>,
    ask: Message,
    answer: Message,
    x: Option<Endpoint>,
)
    requires
        registry::wf(t),
        ask.m_type == DS_RETRIEVE || ask.m_type == DS_CHECK,
        served(t, u, ask, answer, x),
    ensures
        ({
            let held = exists|k: int|
                0 <= k < t.len() && (#[trigger] t[k]).in_use && t[k].key@
                    == ask.payload@.subrange(0, 16);
            &&& u == t
            &&& x == Some(ask.m_source)
            &&& ask.m_type == DS_RETRIEVE && !held ==> answer.m_type == ESRCH && answer.payload@
                == ask.payload@
            &&& ask.m_type == DS_RETRIEVE && held ==> answer.m_type == OK
            &&& ask.m_type == DS_CHECK ==> answer.m_type == OK && payload::i32_field(
                answer.payload@,
                16,
            ) == (if held {
                1int
            } else {
                0
            })
        }),
{
    registry::law_lookup_reads_a_slot(t, request_key(ask.payload@));
    payload::law_i32_round_trip(ask.payload@, 16, 0);
    payload::law_i32_round_trip(ask.payload@, 16, 1);
}

/// What is not a request of the directory is neither answered nor acted on.
pub proof fn law_other_traffic_is_ignored(
    t: Seq<Entry>,
    u: Seq<Entry>,
    msg: Message,
    reply: Message,
    x: Option<Endpoint>,
)
    requires
        served(t, u, msg, reply, x),
        msg.m_type != DS_PUBLISH && msg.m_type != DS_RETRIEVE && msg.m_type != DS_CHECK,
    ensures
        x is None,
        u == t,
{
}

/// The answer to whether a key is bound is 1 exactly when some slot in use carries the
/// key, and else 0.
pub proof fn law_check_tells_what_is_bound(t: Seq<Entry>, p: Seq<u8>)
    requires
        p.len() == 96,
    ensures
        payload::i32_field(check_reply(t, p), DS_VALUE_OFF as int) == 1 <==> exists|i: int|
            0 <= i < t.len() && (#[trigger] t[i]).in_use && t[i].key@ == request_key(p),
        payload::i32_field(check_reply(t, p), DS_VALUE_OFF as int) == 0 || payload::i32_field(
            check_reply(t, p),
            DS_VALUE_OFF as int,
        ) == 1,
{
    let v: i32 = if registry::lookup(t, request_key(p)) is Some {
        1
    } else {
        0
    };
    payload::law_i32_round_trip(p, DS_VALUE_OFF as int, v);
    let q = registry::binds(request_key(p));
    table::lemma_first(t, q);
    if exists|i: int| 0 <= i < t.len() && (#[trigger] t[i]).in_use && t[i].key@ == request_key(p) {
        let i = choose|i: int|
            0 <= i < t.len() && (#[trigger] t[i]).in_use && t[i].key@ == request_key(p);
        assert(q(t[i]));
    }
    if table::first(t, q) < t.len() {
        assert(t[table::first(t, q)].in_use);
    }
}

} // verus!
