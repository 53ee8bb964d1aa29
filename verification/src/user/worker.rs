//! A program that checks the frame it was started with, and exits with what it
//! found.
use vstd::prelude::*;
use vstd::string::*;
use crate::abi::execstack::{
    AT_NULL, AT_PAGESZ, AT_PHDR, AT_PHENT, AT_PHNUM, EXEC_STACK_PROBE_PASS, STACK_ALIGN,
};
use crate::abi::message::USER_PAGE_SIZE;
use crate::bytes;
use crate::bytes::{get_u32, get_u64};

verus! {

/// Rounds of asking for its own pid before it exits.
pub const GETPID_ROUNDS: usize = 3;

/// What `argv[0]` must say.
pub const ARGV0: &'static str = "worker";

/// Where the image is linked.
pub const LOAD_BASE: u64 = 0x0010_0000;

/// The type of a loadable segment.
pub const PT_LOAD: u32 = 1;

/// Bytes in one program header.
pub const PHENT: u64 = 56;

/// Entries of the auxiliary vector that are looked at.
pub const AUXV_SCAN_MAX: usize = 16;

/// The memory the program looks at: its stack and its image, each from an address
/// on. A read outside both, or across an end, finds nothing, and the check that
/// made it fails.
pub struct Memory<'a> {
    pub stack_at: u64,
    pub stack: &'a [u8],
    pub image_at: u64,
    pub image: &'a [u8],
}

/// `n` bytes from `va` on lie in the bytes `b` that start at `at`.
pub open spec fn inside(at: u64, b: Seq<u8>, va: int, n: int) -> bool {
    at <= va && va + n <= at + b.len()
}

impl<'a> Memory<'a> {
    /// The `u64` at `va`.
    pub open spec fn word(self, va: int) -> Option<u64> {
        if inside(self.stack_at, self.stack@, va, 8) {
            Some(bytes::u64_at(self.stack@, va - self.stack_at))
        } else if inside(self.image_at, self.image@, va, 8) {
            Some(bytes::u64_at(self.image@, va - self.image_at))
        } else {
            None
        }
    }

    /// The `u32` at `va`.
    pub open spec fn half(self, va: int) -> Option<u32> {
        if inside(self.stack_at, self.stack@, va, 4) {
            Some(bytes::u32_at(self.stack@, va - self.stack_at))
        } else if inside(self.image_at, self.image@, va, 4) {
            Some(bytes::u32_at(self.image@, va - self.image_at))
        } else {
            None
        }
    }

    /// The byte at `va`.
    pub open spec fn byte(self, va: int) -> Option<u8> {
        if inside(self.stack_at, self.stack@, va, 1) {
            Some(self.stack@[va - self.stack_at])
        } else if inside(self.image_at, self.image@, va, 1) {
            Some(self.image@[va - self.image_at])
        } else {
            None
        }
    }

    /// Read the `u64` at `va + off`.
    pub fn rd_u64(&self, va: u64, off: u64) -> (r: Option<u64>)
        requires
            self.wf(),
        ensures
            r == self.word(va + off),
    {
        match place(self.stack_at, self.stack, va, off, 8) {
            Some(i) => Some(get_u64(self.stack, i)),
            None => match place(self.image_at, self.image, va, off, 8) {
                Some(i) => Some(get_u64(self.image, i)),
                None => None,
            },
        }
    }

    /// Read the `u32` at `va`.
    pub fn rd_u32(&self, va: u64) -> (r: Option<u32>)
        requires
            self.wf(),
        ensures
            r == self.half(va as int),
    {
        match place(self.stack_at, self.stack, va, 0, 4) {
            Some(i) => Some(get_u32(self.stack, i)),
            None => match place(self.image_at, self.image, va, 0, 4) {
                Some(i) => Some(get_u32(self.image, i)),
                None => None,
            },
        }
    }

    /// Read the byte at `va + off`.
    pub fn rd_u8(&self, va: u64, off: u64) -> (r: Option<u8>)
        requires
            self.wf(),
        ensures
            r == self.byte(va + off),
    {
        match place(self.stack_at, self.stack, va, off, 1) {
            Some(i) => Some(self.stack[i]),
            None => match place(self.image_at, self.image, va, off, 1) {
                Some(i) => Some(self.image[i]),
                None => None,
            },
        }
    }

    /// Both pieces of memory end inside the address space.
    pub open spec fn wf(self) -> bool {
        &&& self.stack_at + self.stack@.len() <= u64::MAX
        &&& self.image_at + self.image@.len() <= u64::MAX
    }
}

/// Where `n` bytes at `va + off` lie in the bytes `b` that start at `at`.
fn place(at: u64, b: &[u8], va: u64, off: u64, n: u64) -> (r: Option<usize>)
    requires
        at + b@.len() <= u64::MAX,
        n <= 8,
    ensures
        match r {
            Some(i) => inside(at, b@, va + off, n as int) && i == va + off - at,
            None => !inside(at, b@, va + off, n as int),
        },
{
    let len: u64 = b.len() as u64;
    if off > u64::MAX - va {
        return None;
    }
    let a: u64 = va + off;
    if a < at || n > len || a - at > len - n {
        return None;
    }
    Some((a - at) as usize)
}

/// The NUL-terminated text at `va` is `want`.
pub open spec fn text_at(m: Memory, va: u64, want: Seq<u8>) -> bool {
    &&& forall|i: int| 0 <= i < want.len() ==> m.byte(va + i) == Some(#[trigger] want[i])
    &&& m.byte(va + want.len()) == Some(0u8)
}

/// Whether the NUL-terminated text at `va` is `want`.
pub fn str_eq(m: &Memory, va: u64, want: &[u8]) -> (b: bool)
    requires
        m.wf(),
    ensures
        b == text_at(*m, va, want@),
{
    let mut i: usize = 0;
    while i < want.len()
        invariant
            m.wf(),
            i <= want@.len(),
            forall|k: int| 0 <= k < i ==> m.byte(va + k) == Some(#[trigger] want@[k]),
        decreases want@.len() - i,
    {
        match m.rd_u8(va, i as u64) {
            Some(b) => {
                if b != want[i] {
                    assert(m.byte(va + i) != Some(want@[i as int]));
                    return false;
                }
            },
            None => {
                assert(m.byte(va + i) != Some(want@[i as int]));
                return false;
            },
        }
        i = i + 1;
    }
    match m.rd_u8(va, want.len() as u64) {
        Some(b) => b == 0,
        None => false,
    }
}

/// The value of entry `want` in the vector at `auxv`, from entry `i` on, before
/// its end.
pub open spec fn aux_from(m: Memory, auxv: int, want: u64, i: int) -> Option<u64>
    decreases AUXV_SCAN_MAX - i,
{
    if i >= AUXV_SCAN_MAX {
        None
    } else {
        match m.word(auxv + 16 * i) {
            None => None,
            Some(t) => if t == AT_NULL {
                None
            } else if t == want {
                m.word(auxv + 16 * i + 8)
            } else {
                aux_from(m, auxv, want, i + 1)
            },
        }
    }
}

/// The value of entry `want` in the vector `at` bytes past `sp`.
pub fn auxv_get(m: &Memory, sp: u64, at: u64, want: u64) -> (r: Option<u64>)
    requires
        m.wf(),
        at <= u64::MAX - 248,
    ensures
        r == aux_from(*m, sp + at, want, 0),
{
    let mut i: usize = 0;
    while i < AUXV_SCAN_MAX
        invariant
            m.wf(),
            at <= u64::MAX - 248,
            i <= 16,
            aux_from(*m, sp + at, want, 0) == aux_from(*m, sp + at, want, i as int),
        decreases 16 - i,
    {
        let off: u64 = at + 16 * (i as u64);
        match m.rd_u64(sp, off) {
            Some(t) => {
                if t == AT_NULL {
                    return None;
                }
                if t == want {
                    return m.rd_u64(sp, off + 8);
                }
            },
            None => {
                return None;
            },
        }
        i = i + 1;
    }
    None
}

/// The vector at `auxv` has an end among the entries that are looked at.
pub open spec fn terminated(m: Memory, auxv: int) -> bool {
    exists|i: int| 0 <= i < AUXV_SCAN_MAX && #[trigger] m.word(auxv + 16 * i) == Some(AT_NULL)
}

/// Whether the vector `at` bytes past `sp` has an end.
pub fn auxv_terminated(m: &Memory, sp: u64, at: u64) -> (b: bool)
    requires
        m.wf(),
        at <= u64::MAX - 248,
    ensures
        b == terminated(*m, sp + at),
{
    let mut i: usize = 0;
    while i < AUXV_SCAN_MAX
        invariant
            m.wf(),
            at <= u64::MAX - 248,
            i <= 16,
            forall|k: int|
                0 <= k < i ==> #[trigger] m.word(sp + at + 16 * k) != Some(AT_NULL),
        decreases 16 - i,
    {
        let off: u64 = at + 16 * (i as u64);
        match m.rd_u64(sp, off) {
            Some(t) => {
                if t == AT_NULL {
                    assert(m.word(sp + at + 16 * (i as int)) == Some(AT_NULL));
                    return true;
                }
            },
            None => {},
        }
        assert(m.word(sp + at + 16 * (i as int)) != Some(AT_NULL));
        i = i + 1;
    }
    false
}

/// The vector at `auxv` tells where this image's program headers are: entries of
/// the right size, at least one, and the first a loadable segment at the link
/// base.
pub open spec fn headers_found(m: Memory, auxv: int) -> bool {
    match (
        aux_from(m, auxv, AT_PHDR, 0),
        aux_from(m, auxv, AT_PHENT, 0),
        aux_from(m, auxv, AT_PHNUM, 0),
    ) {
        (Some(phdr), Some(phent), Some(phnum)) => {
            &&& phent == PHENT
            &&& phnum != 0
            &&& phdr % 8 == 0
            &&& m.half(phdr as int) == Some(PT_LOAD)
            &&& m.word(phdr + 16) == Some(LOAD_BASE)
        },
        _ => false,
    }
}

/// Whether the vector tells where this image's program headers are.
pub fn phdrs_are_readable(m: &Memory, sp: u64, at: u64) -> (b: bool)
    requires
        m.wf(),
        at <= u64::MAX - 248,
    ensures
        b == headers_found(*m, sp + at),
{
    let phdr = auxv_get(m, sp, at, AT_PHDR);
    let phent = auxv_get(m, sp, at, AT_PHENT);
    let phnum = auxv_get(m, sp, at, AT_PHNUM);
    match (phdr, phent, phnum) {
        (Some(phdr), Some(phent), Some(phnum)) => {
            if phent != PHENT || phnum == 0 || phdr % 8 != 0 {
                return false;
            }
            let kind = match m.rd_u32(phdr) {
                Some(t) => t == PT_LOAD,
                None => false,
            };
            let base = match m.rd_u64(phdr, 16) {
                Some(v) => v == LOAD_BASE,
                None => false,
            };
            kind && base
        },
        _ => false,
    }
}

/// Check `k` of the frame at `sp`, counted from one.
pub open spec fn check(m: Memory, sp: u64, k: int) -> bool {
    let auxv = sp + 32;
    if k == 1 {
        sp % STACK_ALIGN == 0
    } else if k == 2 {
        m.word(sp as int) == Some(1u64)
    } else if k == 3 {
        m.word(sp + 8) matches Some(va) && text_at(m, va, ARGV0.spec_bytes())
    } else if k == 4 {
        m.word(sp + 16) == Some(0u64)
    } else if k == 5 {
        m.word(sp + 24) == Some(0u64)
    } else if k == 6 {
        aux_from(m, auxv, AT_PAGESZ, 0) == Some(USER_PAGE_SIZE)
    } else if k == 7 {
        headers_found(m, auxv)
    } else {
        terminated(m, auxv)
    }
}

/// Check the frame at `sp`: 0 when all is in order, else the number of the first
/// check that failed. In order: the stack is aligned, there is one argument, it is
/// the program's name, the arguments end, there is no environment, the page size
/// is right, the program headers are where the vector says, and the vector ends.
pub fn validate(m: &Memory, sp: u64) -> (r: i32)
    requires
        m.wf(),
    ensures
        0 <= r <= 8,
        r != 0 ==> !check(*m, sp, r as int),
        forall|k: int| 1 <= k <= 8 && (r == 0 || k < r) ==> #[trigger] check(*m, sp, k),
{
    if sp % STACK_ALIGN != 0 {
        return 1;
    }
    if !(match m.rd_u64(sp, 0) {
        Some(v) => v == 1,
        None => false,
    }) {
        return 2;
    }
    let named = match m.rd_u64(sp, 8) {
        Some(va) => str_eq(m, va, ARGV0.as_bytes()),
        None => false,
    };
    if !named {
        return 3;
    }
    if !(match m.rd_u64(sp, 16) {
        Some(v) => v == 0,
        None => false,
    }) {
        return 4;
    }
    if !(match m.rd_u64(sp, 24) {
        Some(v) => v == 0,
        None => false,
    }) {
        return 5;
    }
    if !(match auxv_get(m, sp, 32, AT_PAGESZ) {
        Some(v) => v == USER_PAGE_SIZE,
        None => false,
    }) {
        return 6;
    }
    if !phdrs_are_readable(m, sp, 32) {
        return 7;
    }
    if !auxv_terminated(m, sp, 32) {
        return 8;
    }
    0
}

/// The status a verdict is told by.
pub open spec fn status_of(verdict: i32) -> i32 {
    if verdict == 0 {
        EXEC_STACK_PROBE_PASS
    } else {
        verdict
    }
}

/// The status the program exits with: never 0, which a program that died early
/// leaves behind.
pub fn exit_status(verdict: i32) -> (s: i32)
    ensures
        s == status_of(verdict),
        s != 0,
{
    if verdict == 0 {
        EXEC_STACK_PROBE_PASS
    } else {
        verdict
    }
}

/// Success is told from every failure, and from no verdict at all, by the one
/// byte of status that reaches the parent.
pub proof fn law_verdicts_are_distinct(r: i32)
    requires
        1 <= r <= 8,
    ensures
        r != EXEC_STACK_PROBE_PASS,
        0 < EXEC_STACK_PROBE_PASS < 256,
        crate::user::report::stack_report(crate::pm::server::encoded(EXEC_STACK_PROBE_PASS)).0
            == crate::user::request::STDOUT,
        crate::user::report::stack_report(crate::pm::server::encoded(r)).0
            == crate::user::request::STDERR,
{
}

/// The program exits with 90 when all is in order and with the number of the check that
/// failed when it is not, so that different verdicts exit differently.
pub proof fn law_status_tells_the_verdict(a: i32, b: i32)
    requires
        0 <= a <= 8,
        0 <= b <= 8,
    ensures
        status_of(a) == status_of(b) ==> a == b,
        status_of(a) != 0,
        status_of(0) == 90,
        a != 0 ==> status_of(a) == a,
{
}

/// The pieces of memory lie apart.
pub open spec fn apart(m: Memory) -> bool {
    m.stack_at + m.stack@.len() <= m.image_at || m.image_at + m.image@.len() <= m.stack_at
}

/// A wider read is the narrower ones side by side, least significant first, and fails
/// when one of them does.
pub proof fn law_words_are_bytes(m: Memory, va: int)
    requires
        apart(m),
    ensures
        m.half(va) matches Some(h) ==> m.byte(va) is Some && m.byte(va + 1) is Some && m.byte(va + 2)
            is Some && m.byte(va + 3) is Some && h == m.byte(va)->0 + 256 * m.byte(va + 1)->0
            + 65_536 * m.byte(va + 2)->0 + 16_777_216 * m.byte(va + 3)->0,
        m.word(va) matches Some(w) ==> m.half(va) is Some && m.half(va + 4) is Some && w == m.half(
            va,
        )->0 + 4_294_967_296 * m.half(va + 4)->0,
        m.byte(va) is Some <==> m.stack_at <= va < m.stack_at + m.stack@.len() || m.image_at <= va
            < m.image_at + m.image@.len(),
{
}

} // verus!
