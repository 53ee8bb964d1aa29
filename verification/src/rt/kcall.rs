//! Kernel-call requests, and what their replies mean.
use vstd::prelude::*;
use crate::abi::callnr::{SYS_COPY, SYS_GETINFO, SYS_SAFECOPY};
use crate::abi::endpoint::Endpoint;
use crate::abi::errno::OK;
use crate::abi::message::Message;
use crate::rt::payload;
use crate::rt::payload::{wr_i32, wr_u64};

verus! {

/// The payload of a grant copy.
pub open spec fn safecopy_payload(
    direction: i32,
    granter: Endpoint,
    gid: i32,
    offset: u64,
    addr: u64,
    bytes: u64,
) -> Seq<u8> {
    let p = payload::with_i32(payload::zero_payload(), 0, direction);
    let p = payload::with_i32(payload::with_i32(p, 4, granter), 8, gid);
    payload::with_u64(payload::with_u64(payload::with_u64(p, 16, offset), 24, addr), 32, bytes)
}

/// Build the call that copies between the range grant `gid` describes and the
/// caller's own buffer at `addr`. `granter` must be the endpoint the kernel
/// stamped on the request being served.
pub fn sys_safecopy(
    direction: i32,
    granter: Endpoint,
    gid: i32,
    offset: u64,
    addr: u64,
    bytes: u64,
) -> (m: Message)
    ensures
        m.m_source == 0,
        m.m_type == SYS_SAFECOPY,
        m.payload@ == safecopy_payload(direction, granter, gid, offset, addr, bytes),
{
    let mut m = Message::request(SYS_SAFECOPY);
    wr_i32(&mut m, 0, direction);
    wr_i32(&mut m, 4, granter);
    wr_i32(&mut m, 8, gid);
    wr_u64(&mut m, 16, offset);
    wr_u64(&mut m, 24, addr);
    wr_u64(&mut m, 32, bytes);
    m
}

/// The payload of a raw copy.
pub open spec fn copy_payload(
    src_e: Endpoint,
    src_addr: u64,
    dst_e: Endpoint,
    dst_addr: u64,
    bytes: u64,
) -> Seq<u8> {
    let p = payload::with_i32(payload::with_i32(payload::zero_payload(), 0, src_e), 4, dst_e);
    payload::with_u64(
        payload::with_u64(payload::with_u64(p, 16, src_addr), 24, dst_addr),
        32,
        bytes,
    )
}

/// Build the privileged raw copy from `(src_e, src_addr)` to `(dst_e, dst_addr)`.
pub fn sys_copy(
    src_e: Endpoint,
    src_addr: u64,
    dst_e: Endpoint,
    dst_addr: u64,
    bytes: u64,
) -> (m: Message)
    ensures
        m.m_source == 0,
        m.m_type == SYS_COPY,
        m.payload@ == copy_payload(src_e, src_addr, dst_e, dst_addr, bytes),
{
    let mut m = Message::request(SYS_COPY);
    wr_i32(&mut m, 0, src_e);
    wr_i32(&mut m, 4, dst_e);
    wr_u64(&mut m, 16, src_addr);
    wr_u64(&mut m, 24, dst_addr);
    wr_u64(&mut m, 32, bytes);
    m
}

/// Build the query that `selector` names.
pub fn sys_getinfo(selector: i32) -> (m: Message)
    ensures
        m.m_source == 0,
        m.m_type == SYS_GETINFO,
        m.payload@ == payload::with_i32(payload::zero_payload(), 0, selector),
{
    let mut m = Message::request(SYS_GETINFO);
    wr_i32(&mut m, 0, selector);
    m
}

/// The result of a call: the trap's own error when the exchange failed, else what
/// the reply says.
pub open spec fn result_of(trap_rc: i32, reply_type: i32) -> i32 {
    if trap_rc != OK {
        trap_rc
    } else {
        reply_type
    }
}

/// Flatten the two ways a call can fail.
pub fn call_result(trap_rc: i32, reply: &Message) -> (rc: i32)
    ensures
        rc == result_of(trap_rc, reply.m_type),
{
    if trap_rc != OK {
        return trap_rc;
    }
    reply.m_type
}

/// Every argument of a grant copy lies in its own place, as it was given.
pub proof fn law_safecopy_reads_back(
    direction: i32,
    granter: Endpoint,
    gid: i32,
    offset: u64,
    addr: u64,
    bytes: u64,
)
    ensures
        ({
            let p = safecopy_payload(direction, granter, gid, offset, addr, bytes);
            &&& payload::i32_field(p, 0) == direction
            &&& payload::i32_field(p, 4) == granter
            &&& payload::i32_field(p, 8) == gid
            &&& payload::u64_field(p, 16) == offset
            &&& payload::u64_field(p, 24) == addr
            &&& payload::u64_field(p, 32) == bytes
        }),
{
    let p0 = payload::zero_payload();
    let p1 = payload::with_i32(p0, 0, direction);
    let p2 = payload::with_i32(p1, 4, granter);
    let p3 = payload::with_i32(p2, 8, gid);
    let p4 = payload::with_u64(p3, 16, offset);
    let p5 = payload::with_u64(p4, 24, addr);
    payload::law_i32_round_trip(p0, 0, direction);
    payload::law_i32_round_trip(p1, 4, granter);
    payload::law_i32_round_trip(p2, 8, gid);
    payload::law_u64_round_trip(p3, 16, offset);
    payload::law_u64_round_trip(p4, 24, addr);
    payload::law_u64_round_trip(p5, 32, bytes);
    payload::law_writes_do_not_disturb(p1, 4, granter, 0, 0);
    payload::law_writes_do_not_disturb(p2, 8, gid, 0, 0);
    payload::law_writes_do_not_disturb(p2, 8, gid, 0, 4);
    payload::law_writes_do_not_disturb(p3, 16, 0, offset, 0);
    payload::law_writes_do_not_disturb(p3, 16, 0, offset, 4);
    payload::law_writes_do_not_disturb(p3, 16, 0, offset, 8);
    payload::law_writes_do_not_disturb(p4, 24, 0, addr, 0);
    payload::law_writes_do_not_disturb(p4, 24, 0, addr, 4);
    payload::law_writes_do_not_disturb(p4, 24, 0, addr, 8);
    payload::law_writes_do_not_disturb(p4, 24, 0, addr, 16);
    payload::law_writes_do_not_disturb(p5, 32, 0, bytes, 0);
    payload::law_writes_do_not_disturb(p5, 32, 0, bytes, 4);
    payload::law_writes_do_not_disturb(p5, 32, 0, bytes, 8);
    payload::law_writes_do_not_disturb(p5, 32, 0, bytes, 16);
    payload::law_writes_do_not_disturb(p5, 32, 0, bytes, 24);
}

/// Every argument of a raw copy lies in its own place, as it was given.
pub proof fn law_copy_reads_back(
    src_e: Endpoint,
    src_addr: u64,
    dst_e: Endpoint,
    dst_addr: u64,
    bytes: u64,
)
    ensures
        ({
            let p = copy_payload(src_e, src_addr, dst_e, dst_addr, bytes);
            &&& payload::i32_field(p, 0) == src_e
            &&& payload::i32_field(p, 4) == dst_e
            &&& payload::u64_field(p, 16) == src_addr
            &&& payload::u64_field(p, 24) == dst_addr
            &&& payload::u64_field(p, 32) == bytes
        }),
{
    let p0 = payload::zero_payload();
    let p1 = payload::with_i32(p0, 0, src_e);
    let p2 = payload::with_i32(p1, 4, dst_e);
    let p3 = payload::with_u64(p2, 16, src_addr);
    let p4 = payload::with_u64(p3, 24, dst_addr);
    payload::law_i32_round_trip(p0, 0, src_e);
    payload::law_i32_round_trip(p1, 4, dst_e);
    payload::law_u64_round_trip(p2, 16, src_addr);
    payload::law_u64_round_trip(p3, 24, dst_addr);
    payload::law_u64_round_trip(p4, 32, bytes);
    payload::law_writes_do_not_disturb(p1, 4, dst_e, 0, 0);
    payload::law_writes_do_not_disturb(p2, 16, 0, src_addr, 0);
    payload::law_writes_do_not_disturb(p2, 16, 0, src_addr, 4);
    payload::law_writes_do_not_disturb(p3, 24, 0, dst_addr, 0);
    payload::law_writes_do_not_disturb(p3, 24, 0, dst_addr, 4);
    payload::law_writes_do_not_disturb(p3, 24, 0, dst_addr, 16);
    payload::law_writes_do_not_disturb(p4, 32, 0, bytes, 0);
    payload::law_writes_do_not_disturb(p4, 32, 0, bytes, 4);
    payload::law_writes_do_not_disturb(p4, 32, 0, bytes, 16);
    payload::law_writes_do_not_disturb(p4, 32, 0, bytes, 24);
}

/// A call succeeds only when both the trap and the reply did, and the first of the two
/// to fail is the one reported.
pub proof fn law_first_failure_is_reported(trap_rc: i32, reply_type: i32)
    ensures
        result_of(trap_rc, reply_type) == OK <==> trap_rc == OK && reply_type == OK,
        trap_rc == OK ==> result_of(trap_rc, reply_type) == reply_type,
        trap_rc != OK ==> result_of(trap_rc, reply_type) == trap_rc,
{
}

} // verus!
