//! The client side of the name directory.
use vstd::prelude::*;
use crate::abi::callnr::{DS_PUBLISH, DS_RETRIEVE};
use crate::abi::endpoint::Endpoint;
use crate::abi::errno::OK;
use crate::abi::message::Message;
use crate::rt::payload;
use crate::rt::payload::{rd_i32, wr_bytes};

verus! {

/// Where the directory puts an endpoint, or a status, in a reply.
pub const DS_VALUE_OFF: usize = 16;

/// The payload of a request about `name`: the name alone.
pub open spec fn key_payload(name: Seq<u8>) -> Seq<u8> {
    payload::with_bytes(payload::zero_payload(), 0, name)
}

/// Build the request that publishes the caller's own endpoint under `name`. The
/// endpoint is not in the payload: the directory records the kernel-stamped
/// source, so a server can only ever publish itself.
pub fn sef_publish_to_ds(name: &[u8; 16]) -> (m: Message)
    ensures
        m.m_source == 0,
        m.m_type == DS_PUBLISH,
        m.payload@ == key_payload(name@),
{
    let mut m = Message::request(DS_PUBLISH);
    wr_bytes(&mut m, 0, name.as_slice());
    m
}

/// Build the request that looks up the endpoint published under `name`.
pub fn sef_retrieve_from_ds(name: &[u8; 16]) -> (m: Message)
    ensures
        m.m_source == 0,
        m.m_type == DS_RETRIEVE,
        m.payload@ == key_payload(name@),
{
    let mut m = Message::request(DS_RETRIEVE);
    wr_bytes(&mut m, 0, name.as_slice());
    m
}

/// What a lookup found.
pub open spec fn looked_up(trap_rc: i32, m_type: i32, p: Seq<u8>) -> Result<Endpoint, i32> {
    if trap_rc != OK {
        Err(trap_rc)
    } else if m_type != OK {
        Err(m_type)
    } else {
        Ok(payload::i32_field(p, DS_VALUE_OFF as int))
    }
}

/// What a lookup found: the endpoint, or the trap's error, or the directory's.
pub fn retrieve_result(trap_rc: i32, reply: &Message) -> (r: Result<Endpoint, i32>)
    ensures
        r == looked_up(trap_rc, reply.m_type, reply.payload@),
{
    if trap_rc != OK {
        return Err(trap_rc);
    }
    if reply.m_type != OK {
        return Err(reply.m_type);
    }
    Ok(rd_i32(reply, DS_VALUE_OFF))
}

/// An endpoint is found only when both the exchange and the directory succeeded, and is
/// then the word right after the name; otherwise the first error is passed on.
pub proof fn law_endpoint_follows_the_name(trap_rc: i32, m_type: i32, p: Seq<u8>)
    ensures
        looked_up(trap_rc, m_type, p) is Ok <==> trap_rc == OK && m_type == OK,
        looked_up(trap_rc, m_type, p) matches Ok(e) ==> e == payload::i32_field(p, 16),
        looked_up(trap_rc, m_type, p) matches Err(e) ==> e == (if trap_rc != OK {
            trap_rc
        } else {
            m_type
        }),
{
}

/// A request about a name carries the name in front and nothing else: in particular no
/// endpoint.
pub proof fn law_request_is_the_name_alone(name: Seq<u8>)
    requires
        name.len() == 16,
    ensures
        key_payload(name).subrange(0, 16) == name,
        forall|i: int| 16 <= i < 96 ==> #[trigger] key_payload(name)[i] == 0,
{
    payload::law_bytes_are_placed_whole(payload::zero_payload(), 0, name);
}

} // verus!
