//! Read and write requests: the fields they share, whether the buffer will do,
//! and when a write that goes out in pieces is finished.
use vstd::prelude::*;
use crate::abi::callnr::{VFS_BUF_OFF, VFS_FD_OFF, VFS_LEN_OFF};
use crate::abi::errno::{EFAULT, EINVAL};
use crate::abi::message;
use crate::abi::message::{user_range_ok, Message};
use crate::rt::payload;
use crate::rt::payload::{rd_i32, rd_u64, wr_i32, wr_u64};

verus! {

/// A parsed read or write request.
#[derive(Copy, Clone, PartialEq, Eq, Debug, Structural)]
pub struct Request {
    pub fd: i32,
    pub len: i32,
    /// The buffer's address in the caller's own memory.
    pub buf: u64,
}

/// The request a payload carries.
pub open spec fn request_of(p: Seq<u8>) -> Request {
    Request {
        fd: payload::i32_field(p, VFS_FD_OFF as int),
        len: payload::i32_field(p, VFS_LEN_OFF as int),
        buf: payload::u64_field(p, VFS_BUF_OFF as int),
    }
}

/// The payload that carries a request.
pub open spec fn request_payload(r: Request) -> Seq<u8> {
    let p = payload::with_i32(payload::zero_payload(), VFS_FD_OFF as int, r.fd);
    payload::with_u64(
        payload::with_i32(p, VFS_LEN_OFF as int, r.len),
        VFS_BUF_OFF as int,
        r.buf,
    )
}

/// Read a request.
pub fn parse(msg: &Message) -> (r: Request)
    ensures
        r == request_of(msg.payload@),
{
    Request {
        fd: rd_i32(msg, VFS_FD_OFF),
        len: rd_i32(msg, VFS_LEN_OFF),
        buf: rd_u64(msg, VFS_BUF_OFF),
    }
}

/// Build the message that carries a request, as a client does.
pub fn build(m_type: i32, r: Request) -> (m: Message)
    ensures
        m.carries(m_type, request_payload(r)),
{
    let mut m = Message::request(m_type);
    wr_i32(&mut m, VFS_FD_OFF, r.fd);
    wr_i32(&mut m, VFS_LEN_OFF, r.len);
    wr_u64(&mut m, VFS_BUF_OFF, r.buf);
    m
}

/// How many bytes to move, or what is wrong: first a negative length, then the
/// buffer. An empty transfer is legal and needs no buffer.
pub open spec fn valid(len: i32, buf: u64) -> Result<usize, i32> {
    if len < 0 {
        Err(EINVAL)
    } else if len == 0 {
        Ok(0)
    } else if !message::user_range(buf, len as u64) {
        Err(EFAULT)
    } else {
        Ok(len as usize)
    }
}

/// Decide how many bytes to move.
pub fn validate(len: i32, buf: u64) -> (r: Result<usize, i32>)
    ensures
        r == valid(len, buf),
{
    if len < 0 {
        return Err(EINVAL);
    }
    let n: usize = len as usize;
    if n == 0 {
        return Ok(0);
    }
    if !user_range_ok(buf, n as u64) {
        return Err(EFAULT);
    }
    Ok(n)
}

/// What comes after a driver's answer.
#[derive(Copy, Clone, PartialEq, Eq, Debug, Structural)]
pub enum Step {
    /// Send again from this offset.
    More(usize),
    /// Stop; this is the result.
    Done(i32),
}

/// Where `off` stands once `n` more bytes have gone out, at most `len`.
pub open spec fn reached(off: usize, len: usize, n: i32) -> int {
    if off + n <= len {
        off + n
    } else {
        len as int
    }
}

/// What comes after a driver that was at `off` of `len` answered `n`: an error
/// after some progress reports the progress, no progress ends the write, and a
/// driver cannot report more than it was given.
pub open spec fn after(off: usize, len: usize, n: i32) -> Step {
    if n < 0 {
        Step::Done(
            if off > 0 {
                off as i32
            } else {
                n
            },
        )
    } else if n == 0 {
        Step::Done(off as i32)
    } else if reached(off, len, n) >= len {
        Step::Done(len as i32)
    } else {
        Step::More(reached(off, len, n) as usize)
    }
}

/// Fold one driver answer into a write.
pub fn advance(off: usize, len: usize, n: i32) -> (s: Step)
    ensures
        s == after(off, len, n),
{
    if n < 0 {
        return Step::Done(
            if off > 0 {
                off as i32
            } else {
                n
            },
        );
    }
    if n == 0 {
        return Step::Done(off as i32);
    }
    let next: usize = if off >= len || n as usize >= len - off {
        len
    } else {
        off + n as usize
    };
    if next >= len {
        Step::Done(next as i32)
    } else {
        Step::More(next)
    }
}

/// What a client writes is what the server reads, whichever way the bytes go.
pub proof fn law_parse_reads_back(r: Request)
    ensures
        request_of(request_payload(r)) == r,
{
    let p0 = payload::zero_payload();
    let p1 = payload::with_i32(p0, VFS_FD_OFF as int, r.fd);
    let p2 = payload::with_i32(p1, VFS_LEN_OFF as int, r.len);
    payload::law_i32_round_trip(p0, VFS_FD_OFF as int, r.fd);
    payload::law_i32_round_trip(p1, VFS_LEN_OFF as int, r.len);
    payload::law_u64_round_trip(p2, VFS_BUF_OFF as int, r.buf);
    payload::law_writes_do_not_disturb(p1, VFS_LEN_OFF as int, r.len, 0, VFS_FD_OFF as int);
    payload::law_writes_do_not_disturb(p2, VFS_BUF_OFF as int, 0, r.buf, VFS_FD_OFF as int);
    payload::law_writes_do_not_disturb(p2, VFS_BUF_OFF as int, 0, r.buf, VFS_LEN_OFF as int);
}

/// A write makes progress or stops, never runs past its buffer, and never reports
/// more bytes than it was asked to move.
pub proof fn law_write_stays_in_its_buffer(off: usize, len: usize, n: i32)
    requires
        off <= len <= i32::MAX,
    ensures
        after(off, len, n) matches Step::More(next) ==> off < next < len,
        after(off, len, n) matches Step::Done(rc) ==> rc <= len,
        n > 0 && after(off, len, n) is Done ==> after(off, len, n) == Step::Done(len as i32),
{
}

/// A write goes on from exactly where its driver stopped, and is done only when the
/// driver has had every byte: `n` more bytes at `off` bring it to `off + n`.
pub proof fn law_write_goes_on_from_where_it_stopped(off: usize, len: usize, n: i32)
    requires
        off < len <= i32::MAX,
        n > 0,
    ensures
        off + n < len ==> (after(off, len, n) matches Step::More(next) && next == off + n),
        off + n >= len ==> (after(off, len, n) matches Step::Done(rc) && rc == len),
{
}

/// A driver that moves nothing ends the write with what has gone out so far; its
/// error is reported only when that is nothing.
pub proof fn law_no_progress_ends_the_write(off: usize, len: usize, n: i32)
    requires
        off <= len <= i32::MAX,
        n <= 0,
    ensures
        off > 0 ==> (after(off, len, n) matches Step::Done(rc) && rc == off),
        off == 0 ==> (after(off, len, n) matches Step::Done(rc) && rc == n),
{
}

/// A transfer is let through with exactly the length asked for, and only when the
/// whole buffer lies in the user half of the address space, not at address zero. A
/// negative length is told apart from a bad buffer, and an empty transfer needs no
/// buffer.
pub proof fn law_transfer_is_let_through_whole(len: i32, buf: u64)
    ensures
        valid(len, buf) is Ok <==> len == 0 || (len > 0 && buf != 0 && buf + len
            <= 0x8000_0000_0000),
        valid(len, buf) matches Ok(n) ==> n == len,
        valid(len, buf) matches Err(e) ==> e == (if len < 0 {
            EINVAL
        } else {
            EFAULT
        }),
{
}

} // verus!
