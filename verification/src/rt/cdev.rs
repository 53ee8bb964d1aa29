//! The character-device request codec.
//!
//! There is no granter field, and no way to express one: a driver takes the
//! granter from the kernel-stamped source of the message.
use vstd::prelude::*;
use crate::abi::callnr::{CDEV_GRANT_OFF, CDEV_LEN_OFF, CDEV_MINOR_OFF, CDEV_OFFSET_OFF};
use crate::abi::message::Message;
use crate::rt::payload;
use crate::rt::payload::{rd_i32, rd_u64, wr_i32, wr_u64};

verus! {

/// A parsed character-device request. Field for field the payload, with no
/// interpretation applied: the driver's validator does that.
#[derive(Copy, Clone, PartialEq, Eq, Debug, Structural)]
pub struct Request {
    /// Device minor, a namespace of its own in each driver.
    pub minor: i32,
    /// Grant id naming the client's buffer.
    pub gid: i32,
    /// Bytes the client asked for; may be negative on the wire.
    pub len: i32,
    /// Offset within the granted range to start at.
    pub offset: u64,
}

/// The request a payload carries.
pub open spec fn request_of(p: Seq<u8>) -> Request {
    Request {
        minor: payload::i32_field(p, CDEV_MINOR_OFF as int),
        gid: payload::i32_field(p, CDEV_GRANT_OFF as int),
        len: payload::i32_field(p, CDEV_LEN_OFF as int),
        offset: payload::u64_field(p, CDEV_OFFSET_OFF as int),
    }
}

/// The payload that carries a request.
pub open spec fn request_payload(r: Request) -> Seq<u8> {
    let p = payload::with_i32(payload::zero_payload(), CDEV_MINOR_OFF as int, r.minor);
    let p = payload::with_i32(p, CDEV_GRANT_OFF as int, r.gid);
    let p = payload::with_i32(p, CDEV_LEN_OFF as int, r.len);
    payload::with_u64(p, CDEV_OFFSET_OFF as int, r.offset)
}

/// Read a request out of a message payload. Total: a malformed request becomes an
/// invalid value that the driver rejects.
pub fn parse(msg: &Message) -> (r: Request)
    ensures
        r == request_of(msg.payload@),
{
    Request {
        minor: rd_i32(msg, CDEV_MINOR_OFF),
        gid: rd_i32(msg, CDEV_GRANT_OFF),
        len: rd_i32(msg, CDEV_LEN_OFF),
        offset: rd_u64(msg, CDEV_OFFSET_OFF),
    }
}

/// Build the message that carries `r`.
pub fn build(m_type: i32, r: Request) -> (m: Message)
    ensures
        m.m_source == 0,
        m.m_type == m_type,
        m.payload@ == request_payload(r),
{
    let mut m = Message::request(m_type);
    wr_i32(&mut m, CDEV_MINOR_OFF, r.minor);
    wr_i32(&mut m, CDEV_GRANT_OFF, r.gid);
    wr_i32(&mut m, CDEV_LEN_OFF, r.len);
    wr_u64(&mut m, CDEV_OFFSET_OFF, r.offset);
    m
}

/// What a client writes is what the driver reads: each field from its own
/// offset, unchanged.
pub proof fn law_parse_reads_back(r: Request)
    ensures
        request_of(request_payload(r)) == r,
{
    let p0 = payload::zero_payload();
    let p1 = payload::with_i32(p0, CDEV_MINOR_OFF as int, r.minor);
    let p2 = payload::with_i32(p1, CDEV_GRANT_OFF as int, r.gid);
    let p3 = payload::with_i32(p2, CDEV_LEN_OFF as int, r.len);
    payload::law_i32_round_trip(p0, CDEV_MINOR_OFF as int, r.minor);
    payload::law_i32_round_trip(p1, CDEV_GRANT_OFF as int, r.gid);
    payload::law_i32_round_trip(p2, CDEV_LEN_OFF as int, r.len);
    payload::law_u64_round_trip(p3, CDEV_OFFSET_OFF as int, r.offset);
    payload::law_writes_do_not_disturb(p1, CDEV_GRANT_OFF as int, r.gid, 0, CDEV_MINOR_OFF as int);
    payload::law_writes_do_not_disturb(p2, CDEV_LEN_OFF as int, r.len, 0, CDEV_MINOR_OFF as int);
    payload::law_writes_do_not_disturb(p2, CDEV_LEN_OFF as int, r.len, 0, CDEV_GRANT_OFF as int);
    payload::law_writes_do_not_disturb(p3, CDEV_OFFSET_OFF as int, 0, r.offset, CDEV_MINOR_OFF as int);
    payload::law_writes_do_not_disturb(p3, CDEV_OFFSET_OFF as int, 0, r.offset, CDEV_GRANT_OFF as int);
    payload::law_writes_do_not_disturb(p3, CDEV_OFFSET_OFF as int, 0, r.offset, CDEV_LEN_OFF as int);
}

/// Where the fields of a request lie, in words from the start of the payload.
pub proof fn law_request_layout(p: Seq<u8>)
    ensures
        request_of(p).minor == payload::i32_field(p, 0),
        request_of(p).gid == payload::i32_field(p, 4),
        request_of(p).len == payload::i32_field(p, 8),
        request_of(p).offset == payload::u64_field(p, 16),
{
}

} // verus!
