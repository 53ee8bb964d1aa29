//! Scalar accessors for a message payload.
//!
//! A range that does not fit the payload reads as zero and is not written: a
//! server has no business dying on a malformed request.
use vstd::prelude::*;
use vstd::slice::slice_subrange;
use vstd::string::*;
use crate::abi::message::Message;
use crate::bytes;
use crate::bytes::{get_u32, get_u64, i32_to_u32, put_bytes, put_u32, put_u64, u32_to_i32};
use crate::text;

verus! {

/// `off..off + width` lies inside the payload.
pub open spec fn fits(off: int, width: int) -> bool {
    off + width <= 96
}

/// The `i32` at `off`; 0 when it does not fit.
pub open spec fn i32_field(p: Seq<u8>, off: int) -> i32 {
    if fits(off, 4) {
        bytes::i32_at(p, off)
    } else {
        0
    }
}

/// The `u64` at `off`; 0 when it does not fit.
pub open spec fn u64_field(p: Seq<u8>, off: int) -> u64 {
    if fits(off, 8) {
        bytes::u64_at(p, off)
    } else {
        0
    }
}

/// `p` with the `i32` at `off` set, when it fits.
pub open spec fn with_i32(p: Seq<u8>, off: int, v: i32) -> Seq<u8> {
    if fits(off, 4) {
        bytes::splice(p, off, bytes::i32_bytes(v))
    } else {
        p
    }
}

/// `p` with the `u64` at `off` set, when it fits.
pub open spec fn with_u64(p: Seq<u8>, off: int, v: u64) -> Seq<u8> {
    if fits(off, 8) {
        bytes::splice(p, off, bytes::u64_bytes(v))
    } else {
        p
    }
}

/// `p` with the bytes from `off` on set, when they fit.
pub open spec fn with_bytes(p: Seq<u8>, off: int, b: Seq<u8>) -> Seq<u8> {
    if fits(off, b.len() as int) {
        bytes::splice(p, off, b)
    } else {
        p
    }
}

/// An all-zero payload.
pub open spec fn zero_payload() -> Seq<u8> {
    Seq::new(96, |i: int| 0u8)
}

/// The NUL-padded name in `off..off + width`: none when the field does not fit
/// the payload, is empty before its first NUL, or is not UTF-8.
pub open spec fn name_field(p: Seq<u8>, off: int, width: int) -> Option<Seq<u8>> {
    let name = text::until_nul(p.subrange(off, off + width));
    if !fits(off, width) || name.len() == 0 || !vstd::utf8::valid_utf8(name) {
        None
    } else {
        Some(name)
    }
}

/// Read the `i32` at `off`.
pub fn rd_i32(m: &Message, off: usize) -> (v: i32)
    ensures
        v == i32_field(m.payload@, off as int),
{
    if off > 92 {
        return 0;
    }
    u32_to_i32(get_u32(m.payload.as_slice(), off))
}

/// Write the `i32` at `off`.
pub fn wr_i32(m: &mut Message, off: usize, v: i32)
    ensures
        final(m).m_source == old(m).m_source,
        final(m).m_type == old(m).m_type,
        final(m).payload@ == with_i32(old(m).payload@, off as int, v),
{
    if off > 92 {
        return;
    }
    put_u32(&mut m.payload, off, i32_to_u32(v));
}

/// Read the `u64` at `off`.
pub fn rd_u64(m: &Message, off: usize) -> (v: u64)
    ensures
        v == u64_field(m.payload@, off as int),
{
    if off > 88 {
        return 0;
    }
    get_u64(m.payload.as_slice(), off)
}

/// Write the `u64` at `off`.
pub fn wr_u64(m: &mut Message, off: usize, v: u64)
    ensures
        final(m).m_source == old(m).m_source,
        final(m).m_type == old(m).m_type,
        final(m).payload@ == with_u64(old(m).payload@, off as int, v),
{
    if off > 88 {
        return;
    }
    put_u64(&mut m.payload, off, v);
}

/// Write the bytes from `off` on.
pub fn wr_bytes(m: &mut Message, off: usize, b: &[u8])
    ensures
        final(m).m_source == old(m).m_source,
        final(m).m_type == old(m).m_type,
        final(m).payload@ == with_bytes(old(m).payload@, off as int, b@),
{
    if b.len() > 96 || off > 96 - b.len() {
        return;
    }
    put_bytes(&mut m.payload, off, b);
}

/// Read a NUL-padded, fixed-width name. A name that fills the whole field with no
/// NUL at all is well-formed: the field is padded, not terminated.
pub fn rd_name(m: &Message, off: usize, width: usize) -> (r: Option<&str>)
    ensures
        match r {
            Some(s) => name_field(m.payload@, off as int, width as int) == Some(s.spec_bytes()),
            None => name_field(m.payload@, off as int, width as int) is None,
        },
{
    if width > 96 || off > 96 - width {
        return None;
    }
    let field = slice_subrange(m.payload.as_slice(), off, off + width);
    let n: usize = text::nul_len(field);
    let name = slice_subrange(field, 0, n);
    assert(name@ =~= field@.take(n as int));
    if n == 0 {
        return None;
    }
    text::from_utf8(name)
}

/// The address of a local staging buffer, in the form the kernel's copy calls want
/// it. Calls `[u8]::as_mut_ptr`: taking the address leaves the bytes as they were,
/// and nothing is claimed of the address itself.
///
/// An exclusive borrow is asked for because the kernel writes through its own
/// mapping of the buffer.
#[verifier::external_body]
pub fn buf_addr(b: &mut [u8]) -> (addr: u64)
    ensures
        final(b)@ == old(b)@,
{
    b.as_mut_ptr() as usize as u64
}

/// A written `i32` is read back, at every offset where it fits.
pub proof fn law_i32_round_trip(p: Seq<u8>, off: int, v: i32)
    requires
        p.len() == 96,
        0 <= off,
        fits(off, 4),
    ensures
        i32_field(with_i32(p, off, v), off) == v,
{
    bytes::lemma_u32_round_trip(p, off, bytes::wrap32(v));
    bytes::lemma_wrap_round_trip(v, 0);
}

/// A written `u64` is read back, at every offset where it fits.
pub proof fn law_u64_round_trip(p: Seq<u8>, off: int, v: u64)
    requires
        p.len() == 96,
        0 <= off,
        fits(off, 8),
    ensures
        u64_field(with_u64(p, off, v), off) == v,
{
    bytes::lemma_u64_round_trip(p, off, v);
}

/// A write disturbs no field that it does not overlap.
pub proof fn law_writes_do_not_disturb(p: Seq<u8>, off: int, v: i32, w: u64, other: int)
    requires
        p.len() == 96,
        0 <= off,
        0 <= other,
    ensures
        other + 4 <= off || off + 4 <= other ==> i32_field(with_i32(p, off, v), other)
            == i32_field(p, other),
        other + 8 <= off || off + 4 <= other ==> u64_field(with_i32(p, off, v), other)
            == u64_field(p, other),
        other + 4 <= off || off + 8 <= other ==> i32_field(with_u64(p, off, w), other)
            == i32_field(p, other),
        other + 8 <= off || off + 8 <= other ==> u64_field(with_u64(p, off, w), other)
            == u64_field(p, other),
{
}

/// An access outside the payload is inert: it reads zero and writes nothing.
pub proof fn law_out_of_range_is_inert(p: Seq<u8>, off: int, v: i32, w: u64)
    ensures
        off > 92 ==> i32_field(p, off) == 0 && with_i32(p, off, v) == p,
        off > 88 ==> u64_field(p, off) == 0 && with_u64(p, off, w) == p,
{
}

/// A word lies in its four bytes lowest first, in two's complement, and writing it
/// touches no other byte.
pub proof fn law_i32_is_little_endian(p: Seq<u8>, off: int, v: i32)
    requires
        p.len() == 96,
        0 <= off <= 92,
    ensures
        ({
            let q = with_i32(p, off, v);
            &&& q.len() == 96
            &&& q[off] + 0x100 * q[off + 1] + 0x1_0000 * q[off + 2] + 0x100_0000 * q[off + 3] == (
            if v < 0 {
                v + 0x1_0000_0000
            } else {
                v as int
            })
            &&& forall|i: int| 0 <= i < 96 && !(off <= i < off + 4) ==> #[trigger] q[i] == p[i]
        }),
        ({
            let w = p[off] + 0x100 * p[off + 1] + 0x1_0000 * p[off + 2] + 0x100_0000 * p[off + 3];
            i32_field(p, off) == (if w >= 0x8000_0000 {
                w - 0x1_0000_0000
            } else {
                w
            })
        }),
{
}

/// The number in the four bytes at `off`, lowest first.
pub open spec fn word(p: Seq<u8>, off: int) -> int {
    p[off] + 0x100 * p[off + 1] + 0x1_0000 * p[off + 2] + 0x100_0000 * p[off + 3]
}

/// Four bytes that are those of `v` hold `v`.
proof fn lemma_word(p: Seq<u8>, off: int, v: u32)
    requires
        p[off] == bytes::u32_bytes(v)[0],
        p[off + 1] == bytes::u32_bytes(v)[1],
        p[off + 2] == bytes::u32_bytes(v)[2],
        p[off + 3] == bytes::u32_bytes(v)[3],
    ensures
        word(p, off) == v,
{
}

/// A double word lies in its eight bytes lowest first, and writing it touches no other
/// byte.
pub proof fn law_u64_is_little_endian(p: Seq<u8>, off: int, v: u64)
    requires
        p.len() == 96,
        0 <= off <= 88,
    ensures
        with_u64(p, off, v).len() == 96,
        word(with_u64(p, off, v), off) + 0x1_0000_0000 * word(with_u64(p, off, v), off + 4) == v,
        forall|i: int|
            0 <= i < 96 && !(off <= i < off + 8) ==> #[trigger] with_u64(p, off, v)[i] == p[i],
        u64_field(p, off) == word(p, off) + 0x1_0000_0000 * word(p, off + 4),
{
    let q = with_u64(p, off, v);
    assert(word(q, off) + 0x1_0000_0000 * word(q, off + 4) == v) by {
        let lo = (v % 0x1_0000_0000) as u32;
        let hi = (v / 0x1_0000_0000) as u32;
        let b = bytes::u64_bytes(v);
        assert(b[0] == bytes::u32_bytes(lo)[0] && b[1] == bytes::u32_bytes(lo)[1]);
        assert(b[2] == bytes::u32_bytes(lo)[2] && b[3] == bytes::u32_bytes(lo)[3]);
        assert(b[4] == bytes::u32_bytes(hi)[0] && b[5] == bytes::u32_bytes(hi)[1]);
        assert(b[6] == bytes::u32_bytes(hi)[2] && b[7] == bytes::u32_bytes(hi)[3]);
        assert(q[off] == b[0] && q[off + 1] == b[1] && q[off + 2] == b[2] && q[off + 3] == b[3]);
        assert(q[off + 4] == b[4] && q[off + 5] == b[5] && q[off + 6] == b[6] && q[off + 7] == b[7]);
        lemma_word(q, off, lo);
        lemma_word(q, off + 4, hi);
    }
    assert(u64_field(p, off) == word(p, off) + 0x1_0000_0000 * word(p, off + 4)) by {
        assert(bytes::u32_at(p, off) == word(p, off));
        assert(bytes::u32_at(p, off + 4) == word(p, off + 4));
    }
}

/// Bytes that fit are placed one for one; bytes that do not are not placed at all, not
/// even in part.
pub proof fn law_bytes_are_placed_whole(p: Seq<u8>, off: int, b: Seq<u8>)
    requires
        p.len() == 96,
        0 <= off,
    ensures
        off + b.len() <= 96 ==> {
            let q = with_bytes(p, off, b);
            &&& q.len() == 96
            &&& q.subrange(off, off + b.len()) == b
            &&& forall|i: int|
                0 <= i < 96 && !(off <= i < off + b.len()) ==> #[trigger] q[i] == p[i]
        },
        off + b.len() > 96 ==> with_bytes(p, off, b) == p,
{
    if off + b.len() <= 96 {
        assert(with_bytes(p, off, b).subrange(off, off + b.len()) =~= b);
    }
}

/// A name padded with NULs into a field is read back; one that fills its field needs no
/// NUL.
pub proof fn law_name_reads_back(p: Seq<u8>, off: int, width: int, name: Seq<u8>)
    requires
        p.len() == 96,
        0 <= off,
        off + width <= 96,
        0 < name.len() <= width,
        vstd::utf8::valid_utf8(name),
        forall|i: int| 0 <= i < name.len() ==> #[trigger] name[i] != 0,
        p.subrange(off, off + name.len()) == name,
        name.len() < width ==> p[off + name.len()] == 0,
    ensures
        name_field(p, off, width) == Some(name),
{
    let field = p.subrange(off, off + width);
    assert forall|i: int| 0 <= i < name.len() implies field[i] != 0 by {
        assert(p.subrange(off, off + name.len())[i] == name[i]);
        assert(field[i] == name[i]);
    }
    text::lemma_until_nul(field, name.len() as int);
    assert(field.take(name.len() as int) =~= name) by {
        assert forall|i: int| 0 <= i < name.len() implies field[i] == name[i] by {
            assert(p.subrange(off, off + name.len())[i] == name[i]);
        }
    }
}

/// A name that is read is not empty, is valid text, has no NUL in it, and is what the
/// field starts with; a field that starts with NUL or does not fit has none.
pub proof fn law_name_is_what_the_field_starts_with(p: Seq<u8>, off: int, width: int)
    requires
        p.len() == 96,
        0 <= off,
        0 <= width,
    ensures
        name_field(p, off, width) matches Some(name) ==> {
            &&& off + width <= 96
            &&& 0 < name.len() <= width
            &&& vstd::utf8::valid_utf8(name)
            &&& forall|i: int| 0 <= i < name.len() ==> #[trigger] name[i] == p[off + i] && name[i] != 0
            &&& name.len() < width ==> p[off + name.len()] == 0
        },
        off + width > 96 || width == 0 || p[off] == 0 ==> name_field(p, off, width) is None,
{
    if off + width <= 96 {
        let field = p.subrange(off, off + width);
        text::law_until_nul_stops_at_the_first(field);
        let name = text::until_nul(field);
        assert forall|i: int| 0 <= i < name.len() implies #[trigger] name[i] == p[off + i] && name[i]
            != 0 by {
            assert(name[i] == field[i]);
        }
    }
}

} // verus!
