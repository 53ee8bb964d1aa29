//! The kernel debug channel: text cut into the chunks its calls carry.
use vstd::prelude::*;
use vstd::slice::slice_subrange;
use vstd::string::*;
use crate::abi::callnr::{DIAGCTL_CODE_DIAG, DIAG_TEXT_MAX, DIAG_TEXT_OFF, SYS_DIAGCTL};
use crate::abi::message::Message;
use crate::bytes::put_bytes;
use crate::rt::payload;
use crate::rt::payload::{wr_bytes, wr_i32};
use crate::text;

verus! {

/// Longest line a formatted print can build: one call's worth of text.
pub const DIAG_LINE_MAX: usize = DIAG_TEXT_MAX;

/// The payload that carries `bytes`: the code, the length, then the text.
pub open spec fn diag_payload(bytes: Seq<u8>) -> Seq<u8> {
    let p = payload::with_i32(payload::zero_payload(), 0, DIAGCTL_CODE_DIAG);
    let p = payload::with_i32(p, 4, bytes.len() as i32);
    payload::with_bytes(p, DIAG_TEXT_OFF as int, bytes)
}

/// Bytes to place in the next call given `remaining` still to send: the whole
/// remainder, capped at the payload's text budget.
pub fn chunk_len(remaining: usize) -> (n: usize)
    ensures
        n == chunk(remaining as int),
{
    if remaining < DIAG_TEXT_MAX {
        remaining
    } else {
        DIAG_TEXT_MAX
    }
}

/// The size of the next chunk.
pub open spec fn chunk(remaining: int) -> int {
    if remaining < DIAG_TEXT_MAX {
        remaining
    } else {
        DIAG_TEXT_MAX as int
    }
}

/// The chunks of a text, in order: each as long as the budget allows, from the
/// front on.
pub open spec fn chunks(b: Seq<u8>) -> Seq<Seq<u8>>
    decreases b.len(),
{
    if b.len() == 0 {
        Seq::empty()
    } else {
        let n = chunk(b.len() as int);
        seq![b.take(n)] + chunks(b.skip(n))
    }
}

/// The chunks laid end to end.
pub open spec fn joined(c: Seq<Seq<u8>>) -> Seq<u8>
    decreases c.len(),
{
    if c.len() == 0 {
        Seq::empty()
    } else {
        c[0] + joined(c.skip(1))
    }
}

/// The chunks tile the text: no gap, no overlap, no chunk empty, and each fits
/// one call.
pub proof fn law_chunks_tile(b: Seq<u8>)
    ensures
        joined(chunks(b)) == b,
        forall|k: int|
            0 <= k < chunks(b).len() ==> 0 < (#[trigger] chunks(b)[k]).len() <= DIAG_TEXT_MAX,
    decreases b.len(),
{
    if b.len() > 0 {
        let n = chunk(b.len() as int);
        let rest = chunks(b.skip(n));
        law_chunks_tile(b.skip(n));
        assert(chunks(b).skip(1) =~= rest);
        assert(b.take(n) + b.skip(n) =~= b);
        assert forall|k: int| 0 <= k < chunks(b).len() implies 0 < (#[trigger] chunks(b)[k]).len()
            <= DIAG_TEXT_MAX by {
            if k > 0 {
                assert(chunks(b)[k] == rest[k - 1]);
            }
        }
    }
}

/// Build the call that prints `bytes`.
pub fn diag_message(bytes: &[u8]) -> (m: Message)
    requires
        bytes@.len() <= DIAG_TEXT_MAX,
    ensures
        m.m_source == 0,
        m.m_type == SYS_DIAGCTL,
        m.payload@ == diag_payload(bytes@),
{
    let mut m = Message::request(SYS_DIAGCTL);
    wr_i32(&mut m, 0, DIAGCTL_CODE_DIAG);
    wr_i32(&mut m, 4, bytes.len() as i32);
    wr_bytes(&mut m, DIAG_TEXT_OFF, bytes);
    m
}

/// The calls that print `s`, in the order they are sent. The sender stops at the
/// first that fails and returns its result. Splits are on byte boundaries.
pub fn diag_print(s: &str) -> (v: Vec<Message>)
    ensures
        v@.len() == chunks(s.spec_bytes()).len(),
        forall|k: int|
            0 <= k < v@.len() ==> {
                &&& (#[trigger] v@[k]).m_source == 0
                &&& v@[k].m_type == SYS_DIAGCTL
                &&& v@[k].payload@ == diag_payload(chunks(s.spec_bytes())[k])
            },
{
    let b = s.as_bytes();
    let ghost all = chunks(b@);
    let mut v: Vec<Message> = Vec::new();
    let mut sent: usize = 0;
    assert(b@.skip(0) =~= b@);
    assert(all.skip(0) =~= all);
    while sent < b.len()
        invariant
            sent <= b@.len(),
            all == chunks(b@),
            v@.len() <= all.len(),
            all.skip(v@.len() as int) == chunks(b@.skip(sent as int)),
            forall|k: int|
                0 <= k < v@.len() ==> {
                    &&& (#[trigger] v@[k]).m_source == 0
                    &&& v@[k].m_type == SYS_DIAGCTL
                    &&& v@[k].payload@ == diag_payload(all[k])
                },
        decreases b@.len() - sent,
    {
        let n: usize = chunk_len(b.len() - sent);
        let ghost rest = b@.skip(sent as int);
        let ghost k = v@.len() as int;
        let part = slice_subrange(b, sent, sent + n);
        proof {
            assert(part@ =~= rest.take(n as int));
            assert(rest.skip(n as int) =~= b@.skip(sent + n));
            assert(chunks(rest).len() > 0);
            assert(all.skip(k).len() == all.len() - k);
            assert(all.skip(k)[0] == all[k]);
            assert(all.skip(k).skip(1) =~= all.skip(k + 1));
            assert(chunks(rest).skip(1) =~= chunks(rest.skip(n as int)));
        }
        v.push(diag_message(part));
        sent = sent + n;
    }
    assert(all.skip(v@.len() as int).len() == 0);
    v
}

/// A text sink over a fixed buffer: what does not fit is cut off.
pub struct DiagBuf {
    pub buf: [u8; 88],
    pub len: usize,
}

/// What a sink that holds `before` holds after `more` is written: all of it as far as
/// there is room.
pub open spec fn kept(before: Seq<u8>, more: Seq<u8>) -> Seq<u8> {
    (before + more).take(
        if before.len() + more.len() < 88 {
            (before.len() + more.len()) as int
        } else {
            88
        },
    )
}

impl DiagBuf {
    /// The bytes written so far.
    pub open spec fn written(self) -> Seq<u8> {
        self.buf@.take(self.len as int)
    }

    /// The length stays inside the buffer.
    pub open spec fn wf(self) -> bool {
        self.len <= 88
    }

    /// An empty sink over a zeroed buffer.
    pub fn new() -> (d: DiagBuf)
        ensures
            d.wf(),
            d.len == 0,
            d.buf@ == Seq::new(88, |i: int| 0u8),
            d.written() == Seq::<u8>::empty(),
    {
        let d = DiagBuf { buf: [0u8; 88], len: 0 };
        assert(d.buf@ =~= Seq::new(88, |i: int| 0u8));
        assert(d.written() =~= Seq::<u8>::empty());
        d
    }

    /// Append the bytes of `s` as far as they fit. `false` when some did not.
    pub fn write_str(&mut self, s: &str) -> (ok: bool)
        requires
            old(self).wf(),
        ensures
            final(self).wf(),
            final(self).written() == kept(old(self).written(), s.spec_bytes()),
            ok == (old(self).len + s.spec_bytes().len() <= 88),
    {
        let b = s.as_bytes();
        let room: usize = 88 - self.len;
        let n: usize = if b.len() < room {
            b.len()
        } else {
            room
        };
        let ghost before = self.buf@;
        let at: usize = self.len;
        put_bytes(&mut self.buf, at, slice_subrange(b, 0, n));
        self.len = at + n;
        assert(self.written() =~= (before.take(at as int) + b@).take(at + n));
        n == b.len()
    }

    /// The text written so far; empty when it is not UTF-8.
    pub fn as_str(&self) -> (s: &str)
        requires
            self.wf(),
        ensures
            vstd::utf8::valid_utf8(self.written()) ==> s.spec_bytes() == self.written(),
            !vstd::utf8::valid_utf8(self.written()) ==> s@ == ""@,
    {
        let b = slice_subrange(self.buf.as_slice(), 0, self.len);
        assert(b@ =~= self.written());
        match text::from_utf8(b) {
            Some(s) => s,
            None => "",
        }
    }
}

/// A printing call carries its text whole: the code, the length, and then every byte.
pub proof fn law_text_reads_back(bytes: Seq<u8>)
    requires
        bytes.len() <= DIAG_TEXT_MAX,
    ensures
        payload::i32_field(diag_payload(bytes), 0) == DIAGCTL_CODE_DIAG,
        payload::i32_field(diag_payload(bytes), 4) == bytes.len(),
        diag_payload(bytes).subrange(8, 8int + bytes.len()) == bytes,
{
    let p0 = payload::zero_payload();
    let p1 = payload::with_i32(p0, 0, DIAGCTL_CODE_DIAG);
    let p2 = payload::with_i32(p1, 4, bytes.len() as i32);
    payload::law_i32_round_trip(p0, 0, DIAGCTL_CODE_DIAG);
    payload::law_i32_round_trip(p1, 4, bytes.len() as i32);
    payload::law_writes_do_not_disturb(p1, 4, bytes.len() as i32, 0, 0);
    payload::law_bytes_are_placed_whole(p2, DIAG_TEXT_OFF as int, bytes);
}

/// A text goes out in as few calls as it can: every chunk but the last is full.
pub proof fn law_only_the_last_chunk_is_short(b: Seq<u8>, k: int)
    requires
        0 <= k < chunks(b).len() - 1,
    ensures
        chunks(b)[k].len() == DIAG_TEXT_MAX,
        chunks(b)[k] == b.subrange(k * DIAG_TEXT_MAX, (k + 1) * DIAG_TEXT_MAX),
        (k + 1) * DIAG_TEXT_MAX <= b.len(),
    decreases k,
{
    let n = chunk(b.len() as int);
    let rest = b.skip(n);
    assert(chunks(b).skip(1) =~= chunks(rest));
    assert(chunks(rest).len() > 0);
    assert(rest.len() > 0);
    assert(n == DIAG_TEXT_MAX);
    if k > 0 {
        law_only_the_last_chunk_is_short(rest, k - 1);
        assert(chunks(b)[k] == chunks(rest)[k - 1]);
        assert(rest.subrange((k - 1) * DIAG_TEXT_MAX, k * DIAG_TEXT_MAX) =~= b.subrange(
            k * DIAG_TEXT_MAX,
            (k + 1) * DIAG_TEXT_MAX,
        ));
    } else {
        assert(b.take(n) =~= b.subrange(0, n));
    }
}

/// A sink keeps what it has, and of what is written to it as much as its 88 bytes leave
/// room for: all, or else exactly enough to fill it. Writing in two parts is writing both
/// at once.
pub proof fn law_sink_keeps_what_fits(before: Seq<u8>, a: Seq<u8>, b: Seq<u8>)
    requires
        before.len() <= 88,
    ensures
        kept(before, a).len() <= 88,
        before.is_prefix_of(kept(before, a)),
        kept(before, a).is_prefix_of(before + a),
        before.len() + a.len() <= 88 ==> kept(before, a) == before + a,
        before.len() + a.len() > 88 ==> kept(before, a).len() == 88,
        kept(kept(before, a), b) == kept(before, a + b),
{
    assert(kept(before, a).take(before.len() as int) =~= before);
    assert((before + a).take(kept(before, a).len() as int) =~= kept(before, a));
    if before.len() + a.len() <= 88 {
        assert(kept(before, a) =~= before + a);
    }
    assert(kept(kept(before, a), b) =~= kept(before, a + b));
}

} // verus!
