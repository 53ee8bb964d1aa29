//! What an exec target names: a path to be staged from the filesystem, or a
//! module of the boot image. The leading slash is the only thing that tells them
//! apart.
use vstd::prelude::*;
use vstd::slice::slice_subrange;
use vstd::string::*;
use crate::abi::callnr::EXEC_NAME_LEN;
use crate::abi::errno::{EINVAL, ENAMETOOLONG};
use crate::text;

verus! {

/// What an exec target names.
#[derive(Copy, Clone, PartialEq, Eq, Debug)]
pub enum Target<'a> {
    /// An absolute path, and its last component, which becomes `argv[0]`.
    Path { path: &'a str, argv0: &'a str },
    /// A module of the boot image.
    Module(&'a str),
}

/// A target as bytes.
pub ghost enum Named {
    Path(Seq<u8>, Seq<u8>),
    Module(Seq<u8>),
}

impl<'a> Target<'a> {
    /// The bytes of the target.
    pub open spec fn named(self) -> Named {
        match self {
            Target::Path { path, argv0 } => Named::Path(path.spec_bytes(), argv0.spec_bytes()),
            Target::Module(m) => Named::Module(m.spec_bytes()),
        }
    }
}

/// Where the last slash of `p` stands; -1 when there is none.
pub open spec fn last_slash(p: Seq<u8>) -> int
    decreases p.len(),
{
    if p.len() == 0 {
        -1
    } else if p.last() == 47 {
        p.len() - 1
    } else {
        last_slash(p.drop_last())
    }
}

/// What follows the last slash; nothing when that is empty.
pub open spec fn base(p: Seq<u8>) -> Option<Seq<u8>> {
    if last_slash(p) + 1 >= p.len() {
        None
    } else {
        Some(p.skip(last_slash(p) + 1))
    }
}

/// The target in a NUL-padded field, or what is wrong with it: no NUL at all,
/// then text that is not UTF-8, then an empty one, then a name that does not fit
/// the kernel's field.
pub open spec fn target_of(field: Seq<u8>) -> Result<Named, i32> {
    let t = text::until_nul(field);
    if t.len() == field.len() {
        Err(ENAMETOOLONG)
    } else if !vstd::utf8::valid_utf8(t) || t.len() == 0 {
        Err(EINVAL)
    } else if t[0] != 47 {
        if t.len() > EXEC_NAME_LEN {
            Err(EINVAL)
        } else {
            Ok(Named::Module(t))
        }
    } else {
        match base(t) {
            Some(b) => if b.len() > EXEC_NAME_LEN {
                Err(EINVAL)
            } else {
                Ok(Named::Path(t, b))
            },
            None => Err(EINVAL),
        }
    }
}

pub proof fn lemma_last_slash(p: Seq<u8>)
    ensures
        -1 <= last_slash(p) < p.len(),
        last_slash(p) >= 0 ==> p[last_slash(p)] == 47,
        forall|k: int| last_slash(p) < k < p.len() ==> p[k] != 47,
    decreases p.len(),
{
    if p.len() > 0 && p.last() != 47 {
        lemma_last_slash(p.drop_last());
        assert forall|k: int| last_slash(p) < k < p.len() implies p[k] != 47 by {
            if k < p.len() - 1 {
                assert(p.drop_last()[k] == p[k]);
            }
        }
    }
}

proof fn lemma_last_slash_is(p: Seq<u8>, i: int)
    requires
        -1 <= i < p.len(),
        i >= 0 ==> p[i] == 47,
        forall|k: int| i < k < p.len() ==> p[k] != 47,
    ensures
        last_slash(p) == i,
    decreases p.len(),
{
    if p.len() > 0 && p.last() != 47 {
        assert forall|k: int| i < k < p.drop_last().len() implies p.drop_last()[k] != 47 by {
            assert(p.drop_last()[k] == p[k]);
        }
        lemma_last_slash_is(p.drop_last(), i);
    }
}

/// The text after a slash at byte `i`.
fn after_slash(s: &str, i: usize) -> (r: &str)
    requires
        i < s.spec_bytes().len(),
        s.spec_bytes()[i as int] == 47,
    ensures
        r.spec_bytes() == s.spec_bytes().skip(i + 1),
{
    let ghost b = s.spec_bytes();
    proof {
        vstd::utf8::encode_utf8_valid_utf8(s@);
        assert(!vstd::utf8::is_continuation_byte(47u8)) by (bit_vector);
        vstd::utf8::is_char_boundary_iff_not_is_continuation_byte(b, i as int);
    }
    let (_, tail) = s.split_at(i);
    let ghost c = tail.spec_bytes();
    proof {
        vstd::utf8::encode_utf8_valid_utf8(tail@);
        assert(c[0] == 47);
        assert(vstd::utf8::is_leading_byte_width_1(47u8)) by (bit_vector);
        assert(vstd::utf8::length_of_first_scalar(c) == 1);
        let rest = vstd::utf8::pop_first_scalar(c);
        vstd::utf8::is_char_boundary_start_end_of_seq(rest);
        assert(vstd::utf8::is_char_boundary(rest, 0));
        assert(vstd::utf8::is_char_boundary(c, 1));
    }
    let (_, r) = tail.split_at(1);
    assert(r.spec_bytes() =~= b.skip(i + 1));
    r
}

/// The text of a path after its last slash; none when that is empty.
pub fn basename(path: &str) -> (r: Option<&str>)
    ensures
        match r {
            Some(n) => base(path.spec_bytes()) == Some(n.spec_bytes()),
            None => base(path.spec_bytes()) is None,
        },
{
    let b = path.as_bytes();
    let ghost p = path.spec_bytes();
    let mut i: usize = b.len();
    while i > 0
        invariant
            i <= b@.len(),
            b@ == p,
            p == path.spec_bytes(),
            forall|k: int| i <= k < p.len() ==> p[k] != 47,
        decreases i,
    {
        if b[i - 1] == 47 {
            proof {
                lemma_last_slash_is(p, i - 1);
            }
            if i == b.len() {
                return None;
            }
            return Some(after_slash(path, i - 1));
        }
        i = i - 1;
    }
    proof {
        lemma_last_slash_is(p, -1);
        assert(p.skip(0) =~= p);
    }
    if b.len() == 0 {
        None
    } else {
        Some(path)
    }
}

/// Classify an exec target, or say why it is none. `field` is the whole
/// NUL-padded field: a name that fills it leaves no room for its NUL and is
/// refused rather than cut short.
pub fn parse(field: &[u8]) -> (r: Result<Target<'_>, i32>)
    ensures
        match r {
            Ok(t) => target_of(field@) == Ok::<Named, i32>(t.named()),
            Err(e) => target_of(field@) == Err::<Named, i32>(e),
        },
{
    let end: usize = text::nul_len(field);
    if end == field.len() {
        return Err(ENAMETOOLONG);
    }
    let raw = slice_subrange(field, 0, end);
    assert(raw@ =~= field@.take(end as int));
    let name: &str = match text::from_utf8(raw) {
        Some(s) => s,
        None => {
            return Err(EINVAL);
        },
    };
    let b = name.as_bytes();
    if b.len() == 0 {
        return Err(EINVAL);
    }
    if b[0] != 47 {
        if b.len() > EXEC_NAME_LEN {
            return Err(EINVAL);
        }
        return Ok(Target::Module(name));
    }
    match basename(name) {
        Some(argv0) => {
            if argv0.as_bytes().len() > EXEC_NAME_LEN {
                return Err(EINVAL);
            }
            Ok(Target::Path { path: name, argv0 })
        },
        None => Err(EINVAL),
    }
}

/// Names and paths are disjoint, and neither is ever cut short: what is accepted
/// is the whole text before the NUL, and what runs is named by its last
/// component.
pub proof fn law_targets_are_whole(field: Seq<u8>)
    ensures
        target_of(field) matches Ok(Named::Module(m)) ==> m == text::until_nul(field) && m[0] != 47,
        target_of(field) matches Ok(Named::Path(p, a)) ==> {
            &&& p == text::until_nul(field)
            &&& p[0] == 47
            &&& 0 < a.len() <= EXEC_NAME_LEN
            &&& a == p.skip(last_slash(p) + 1)
            &&& forall|k: int| 0 <= k < a.len() ==> a[k] != 47
        },
{
    let t = text::until_nul(field);
    lemma_last_slash(t);
    if target_of(field) is Ok && t.len() > 0 && t[0] == 47 {
        let a = t.skip(last_slash(t) + 1);
        assert forall|k: int| 0 <= k < a.len() implies a[k] != 47 by {
            assert(a[k] == t[last_slash(t) + 1 + k]);
        }
    }
}

} // verus!
