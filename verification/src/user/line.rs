//! Lines put together in a fixed buffer: what does not fit is dropped.
use vstd::prelude::*;
use vstd::slice::slice_subrange;
use vstd::string::*;
use crate::bytes;

verus! {

/// Bytes a line can hold.
pub const LINE_LEN: usize = 64;

/// How many of `src` bytes fit behind `n`.
pub open spec fn room(len: int, n: int, src: int) -> int {
    if n >= len {
        0
    } else if src <= len - n {
        src
    } else {
        len - n
    }
}

/// Append `src` at `n` and return where the line now ends.
pub fn append(line: &mut [u8], n: usize, src: &[u8]) -> (end: usize)
    ensures
        end == n + room(old(line)@.len() as int, n as int, src@.len() as int),
        final(line)@ == bytes::splice(
            old(line)@,
            n as int,
            src@.take(room(old(line)@.len() as int, n as int, src@.len() as int)),
        ),
{
    let len: usize = line.len();
    let count: usize = if n >= len {
        0
    } else if src.len() <= len - n {
        src.len()
    } else {
        len - n
    };
    let mut i: usize = 0;
    while i < count
        invariant
            i <= count,
            len == line@.len(),
            line@.len() == old(line)@.len(),
            count == room(len as int, n as int, src@.len() as int),
            n < len || count == 0,
            line@ == bytes::splice(old(line)@, n as int, src@.take(i as int)),
        decreases count - i,
    {
        line[n + i] = src[i];
        i = i + 1;
        assert(line@ =~= bytes::splice(old(line)@, n as int, src@.take(i as int)));
    }
    assert(line@ =~= bytes::splice(old(line)@, n as int, src@.take(count as int)));
    n + count
}

/// `text` cut to what a line can hold.
pub open spec fn cut(text: Seq<u8>) -> Seq<u8> {
    if text.len() <= LINE_LEN {
        text
    } else {
        text.take(LINE_LEN as int)
    }
}

/// The line made of `head`, `name` and a line end.
pub fn named_line(head: &str, name: &str) -> (v: Vec<u8>)
    ensures
        v@ == cut(head.spec_bytes() + name.spec_bytes() + seq![10u8]),
{
    let h = head.as_bytes();
    let m = name.as_bytes();
    let nl = [10u8];
    let ghost whole = h@ + m@ + seq![10u8];
    let mut line = [0u8;64];
    let a: usize = append(&mut line, 0, h);
    assert(line@.take(a as int) =~= cut(h@));
    let b: usize = append(&mut line, a, m);
    assert(line@.take(b as int) =~= cut(h@ + m@));
    let c: usize = append(&mut line, b, nl.as_slice());
    assert(line@.take(c as int) =~= cut(whole));
    let part = slice_subrange(line.as_slice(), 0, c);
    assert(part@ =~= line@.take(c as int));
    vstd::slice::slice_to_vec(part)
}

} // verus!
