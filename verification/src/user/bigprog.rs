//! A program too big for a small address map: it looks at both ends of its zeroed
//! memory and says what it found.
use vstd::prelude::*;

verus! {

/// Bytes of zeroed memory.
pub const BIG_BYTES: usize = 2097152;

/// What the first and the last byte say.
pub open spec fn verdict_text(first: u8, last: u8) -> Seq<char> {
    if first == 0 && last == 0 {
        "bigprog ok: bss pages mapped\n"@
    } else {
        "bigprog FAIL: bss not zeroed\n"@
    }
}

/// Compute [`verdict_text`].
pub fn verdict(first: u8, last: u8) -> (s: &'static str)
    ensures
        s@ == verdict_text(first, last),
{
    if first == 0 && last == 0 {
        "bigprog ok: bss pages mapped\n"
    } else {
        "bigprog FAIL: bss not zeroed\n"
    }
}

} // verus!
