//! Little-endian scalars in byte sequences, and writes into byte buffers.
//!
//! Every machine this system runs on is little-endian, so the native order of a
//! message payload and the order of the on-disk format are the same.
use vstd::prelude::*;

verus! {

/// `p` with the bytes from `off` on replaced by `b`.
pub open spec fn splice(p: Seq<u8>, off: int, b: Seq<u8>) -> Seq<u8> {
    Seq::new(
        p.len(),
        |i: int|
            if off <= i < off + b.len() {
                b[i - off]
            } else {
                p[i]
            },
    )
}

/// The two bytes of `v`.
pub open spec fn u16_bytes(v: u16) -> Seq<u8> {
    seq![(v % 0x100) as u8, (v / 0x100) as u8]
}

/// The four bytes of `v`.
pub open spec fn u32_bytes(v: u32) -> Seq<u8> {
    seq![
        (v % 0x100) as u8,
        ((v / 0x100) % 0x100) as u8,
        ((v / 0x1_0000) % 0x100) as u8,
        (v / 0x100_0000) as u8,
    ]
}

/// The eight bytes of `v`: those of its low half, then those of its high half.
pub open spec fn u64_bytes(v: u64) -> Seq<u8> {
    u32_bytes((v % 0x1_0000_0000) as u32) + u32_bytes((v / 0x1_0000_0000) as u32)
}

/// The number two's complement gives `v` as 16 unsigned bits.
pub open spec fn wrap16(v: i16) -> u16 {
    if v < 0 {
        (v + 0x1_0000) as u16
    } else {
        v as u16
    }
}

/// The number two's complement gives `v` as 32 unsigned bits.
pub open spec fn wrap32(v: i32) -> u32 {
    if v < 0 {
        (v + 0x1_0000_0000) as u32
    } else {
        v as u32
    }
}

/// The four bytes of `v` in two's complement.
pub open spec fn i32_bytes(v: i32) -> Seq<u8> {
    u32_bytes(wrap32(v))
}

/// The number the two bytes at `off` hold.
pub open spec fn u16_at(p: Seq<u8>, off: int) -> u16 {
    (p[off] + p[off + 1] * 0x100) as u16
}

/// The number the four bytes at `off` hold.
pub open spec fn u32_at(p: Seq<u8>, off: int) -> u32 {
    (p[off] + p[off + 1] * 0x100 + p[off + 2] * 0x1_0000 + p[off + 3] * 0x100_0000) as u32
}

/// The number the eight bytes at `off` hold.
pub open spec fn u64_at(p: Seq<u8>, off: int) -> u64 {
    (u32_at(p, off) + u32_at(p, off + 4) * 0x1_0000_0000) as u64
}

/// The signed number 16 bits stand for.
pub open spec fn unwrap16(v: u16) -> i16 {
    if v >= 0x8000 {
        (v - 0x1_0000) as i16
    } else {
        v as i16
    }
}

/// The signed number 32 bits stand for.
pub open spec fn unwrap32(v: u32) -> i32 {
    if v >= 0x8000_0000 {
        (v - 0x1_0000_0000) as i32
    } else {
        v as i32
    }
}

/// The signed number the four bytes at `off` hold.
pub open spec fn i32_at(p: Seq<u8>, off: int) -> i32 {
    unwrap32(u32_at(p, off))
}

/// Two's complement both ways.
pub fn i32_to_u32(v: i32) -> (u: u32)
    ensures
        u == wrap32(v),
{
    let u: u32 = v as u32;
    assert(v < 0 ==> u == v + 0x1_0000_0000) by (bit_vector)
        requires
            u == v as u32,
    ;
    u
}

/// Two's complement both ways.
pub fn u32_to_i32(u: u32) -> (v: i32)
    ensures
        v == unwrap32(u),
{
    let v: i32 = u as i32;
    assert(u >= 0x8000_0000 ==> v == u - 0x1_0000_0000) by (bit_vector)
        requires
            v == u as i32,
    ;
    v
}

/// Two's complement both ways.
pub fn i16_to_u16(v: i16) -> (u: u16)
    ensures
        u == wrap16(v),
{
    let u: u16 = v as u16;
    assert(v < 0 ==> u == v + 0x1_0000) by (bit_vector)
        requires
            u == v as u16,
    ;
    u
}

/// Two's complement both ways.
pub fn u16_to_i16(u: u16) -> (v: i16)
    ensures
        v == unwrap16(u),
{
    let v: i16 = u as i16;
    assert(u >= 0x8000 ==> v == u - 0x1_0000) by (bit_vector)
        requires
            v == u as i16,
    ;
    v
}

/// Read the two bytes at `off`.
pub fn get_u16(b: &[u8], off: usize) -> (v: u16)
    requires
        off + 2 <= b@.len(),
    ensures
        v == u16_at(b@, off as int),
{
    b[off] as u16 + b[off + 1] as u16 * 0x100
}

/// Read the four bytes at `off`.
pub fn get_u32(b: &[u8], off: usize) -> (v: u32)
    requires
        off + 4 <= b@.len(),
    ensures
        v == u32_at(b@, off as int),
{
    b[off] as u32 + b[off + 1] as u32 * 0x100 + b[off + 2] as u32 * 0x1_0000 + b[off + 3] as u32
        * 0x100_0000
}

/// Read the eight bytes at `off`.
pub fn get_u64(b: &[u8], off: usize) -> (v: u64)
    requires
        off + 8 <= b@.len(),
    ensures
        v == u64_at(b@, off as int),
{
    let len: usize = b.len();
    assert(off + 8 <= len);
    get_u32(b, off) as u64 + get_u32(b, off + 4) as u64 * 0x1_0000_0000
}

/// Overwrite the two bytes at `off` with those of `v`.
pub fn put_u16(b: &mut [u8], off: usize, v: u16)
    requires
        off + 2 <= old(b)@.len(),
    ensures
        final(b)@ == splice(old(b)@, off as int, u16_bytes(v)),
{
    b[off] = (v % 0x100) as u8;
    b[off + 1] = (v / 0x100) as u8;
    assert(b@ =~= splice(old(b)@, off as int, u16_bytes(v)));
}

/// Overwrite the four bytes at `off` with those of `v`.
pub fn put_u32(b: &mut [u8], off: usize, v: u32)
    requires
        off + 4 <= old(b)@.len(),
    ensures
        final(b)@ == splice(old(b)@, off as int, u32_bytes(v)),
{
    b[off] = (v % 0x100) as u8;
    b[off + 1] = ((v / 0x100) % 0x100) as u8;
    b[off + 2] = ((v / 0x1_0000) % 0x100) as u8;
    b[off + 3] = (v / 0x100_0000) as u8;
    assert(b@ =~= splice(old(b)@, off as int, u32_bytes(v)));
}

/// Overwrite the eight bytes at `off` with those of `v`.
pub fn put_u64(b: &mut [u8], off: usize, v: u64)
    requires
        off + 8 <= old(b)@.len(),
    ensures
        final(b)@ == splice(old(b)@, off as int, u64_bytes(v)),
{
    let len: usize = b.len();
    assert(off + 8 <= len);
    put_u32(b, off, (v % 0x1_0000_0000) as u32);
    put_u32(b, off + 4, (v / 0x1_0000_0000) as u32);
    assert(b@ =~= splice(old(b)@, off as int, u64_bytes(v)));
}

/// Overwrite the bytes from `off` on with `src`.
pub fn put_bytes(b: &mut [u8], off: usize, src: &[u8])
    requires
        off + src@.len() <= old(b)@.len(),
    ensures
        final(b)@ == splice(old(b)@, off as int, src@),
{
    let len: usize = b.len();
    let mut i: usize = 0;
    while i < src.len()
        invariant
            i <= src@.len(),
            len == b@.len(),
            off + src@.len() <= len,
            b@ == splice(old(b)@, off as int, src@.take(i as int)),
        decreases src@.len() - i,
    {
        b[off + i] = src[i];
        i = i + 1;
        assert(b@ =~= splice(old(b)@, off as int, src@.take(i as int)));
    }
    assert(src@.take(i as int) =~= src@);
}

/// Reading the bytes just written gives the number back.
pub proof fn lemma_u32_round_trip(p: Seq<u8>, off: int, v: u32)
    requires
        0 <= off,
        off + 4 <= p.len(),
    ensures
        u32_at(splice(p, off, u32_bytes(v)), off) == v,
{
}

/// Reading the bytes just written gives the number back.
pub proof fn lemma_u64_round_trip(p: Seq<u8>, off: int, v: u64)
    requires
        0 <= off,
        off + 8 <= p.len(),
    ensures
        u64_at(splice(p, off, u64_bytes(v)), off) == v,
{
    let lo = (v % 0x1_0000_0000) as u32;
    let hi = (v / 0x1_0000_0000) as u32;
    let q = splice(p, off, u64_bytes(v));
    assert(q =~= splice(splice(p, off, u32_bytes(lo)), off + 4, u32_bytes(hi)));
    lemma_u32_round_trip(p, off, lo);
    lemma_u32_round_trip(splice(p, off, u32_bytes(lo)), off + 4, hi);
    assert(u32_at(q, off) == lo);
    assert(u32_at(q, off + 4) == hi);
}

/// Four bytes that are those of `v` hold `v`.
pub proof fn lemma_u32_is(p: Seq<u8>, off: int, v: u32)
    requires
        p[off] == u32_bytes(v)[0],
        p[off + 1] == u32_bytes(v)[1],
        p[off + 2] == u32_bytes(v)[2],
        p[off + 3] == u32_bytes(v)[3],
    ensures
        u32_at(p, off) == v,
{
}

/// Two bytes that are those of `v` hold `v`.
pub proof fn lemma_u16_is(p: Seq<u8>, off: int, v: u16)
    requires
        p[off] == u16_bytes(v)[0],
        p[off + 1] == u16_bytes(v)[1],
    ensures
        u16_at(p, off) == v,
{
}

/// Two's complement loses nothing.
pub proof fn lemma_wrap_round_trip(v: i32, w: i16)
    ensures
        unwrap32(wrap32(v)) == v,
        unwrap16(wrap16(w)) == w,
{
}

/// A number of two, four or eight bytes is the sum of its bytes, each weighed by its
/// place: the first counts ones, and every next one counts 256 times as much.
pub proof fn law_bytes_are_weighed_by_place(v: u16, w: u32)
    ensures
        u16_bytes(v).len() == 2,
        v == u16_bytes(v)[0] + 256 * u16_bytes(v)[1],
        u32_bytes(w).len() == 4,
        w == u32_bytes(w)[0] + 256 * u32_bytes(w)[1] + 65_536 * u32_bytes(w)[2] + 16_777_216
            * u32_bytes(w)[3],
{
}

/// A negative number is told by the top bit: its unsigned form lies exactly one whole
/// range above it. A number that is not negative is its own.
pub proof fn law_sign_is_one_range(v: i32, w: i16)
    ensures
        wrap32(v) == v || wrap32(v) == v + 4_294_967_296,
        wrap32(v) == v <==> v >= 0,
        wrap16(w) == w || wrap16(w) == w + 65_536,
        wrap16(w) == w <==> w >= 0,
{
}

/// A write changes the bytes it names and no others, and never the length.
pub proof fn law_splice_stays_in_place(p: Seq<u8>, off: int, b: Seq<u8>)
    requires
        0 <= off,
        off + b.len() <= p.len(),
    ensures
        splice(p, off, b).len() == p.len(),
        splice(p, off, b).take(off) == p.take(off),
        splice(p, off, b).subrange(off, off + b.len()) == b,
        splice(p, off, b).skip(off + b.len()) == p.skip(off + b.len()),
{
    assert(splice(p, off, b).take(off) =~= p.take(off));
    assert(splice(p, off, b).subrange(off, off + b.len()) =~= b);
    assert(splice(p, off, b).skip(off + b.len()) =~= p.skip(off + b.len()));
}

} // verus!
