//! What goes into the image: a list of absolute paths and their contents.
//!
//! Exactly one directory level is supported, and [`split_path`] is where that
//! rule lives.
use vstd::prelude::*;
use vstd::string::*;
use crate::mfs::dirent::NAME_MAX;
use crate::mkfs::error::{Fault, MkfsError};
use crate::text;

verus! {

/// One file in the image.
#[derive(Clone, PartialEq, Eq, Debug)]
pub struct Entry {
    /// Absolute path, exactly `/<dir>/<name>`.
    pub path: String,
    /// File contents, verbatim: the whole file, hole included.
    pub bytes: Vec<u8>,
    /// Leading bytes to leave unallocated. 0 for an ordinary file; otherwise a
    /// whole number of blocks that are already zero in `bytes`.
    pub hole: usize,
}

/// The files to write, in the order they were added. Directories are implied by
/// the paths and created in first-seen order.
#[derive(Clone, PartialEq, Eq, Debug)]
pub struct Manifest {
    pub entries: Vec<Entry>,
}

impl Default for Manifest {
    fn default() -> (m: Self)
        ensures
            m.entries@ == Seq::<Entry>::empty(),
    {
        Manifest { entries: Vec::new() }
    }
}

/// Bytes of file content in the first `n` entries.
pub open spec fn sum_bytes(es: Seq<Entry>, n: int) -> int
    decreases n,
{
    if n <= 0 {
        0
    } else {
        sum_bytes(es, n - 1) + es[n - 1].bytes@.len()
    }
}

/// `es` gained one entry with this path, these bytes and this hole, at its end.
pub open spec fn appended(es: Seq<Entry>, before: Seq<Entry>, path: Seq<char>, bytes: Seq<u8>, hole: usize) -> bool {
    &&& es.len() == before.len() + 1
    &&& es.drop_last() == before
    &&& es.last().path@ == path
    &&& es.last().bytes@ == bytes
    &&& es.last().hole == hole
}

impl Manifest {
    /// An empty manifest.
    pub fn new() -> (m: Self)
        ensures
            m.entries@ == Seq::<Entry>::empty(),
    {
        Manifest { entries: Vec::new() }
    }

    /// Add a file. Paths are validated when the image is built, not here, so
    /// every problem is reported by the build.
    pub fn add(&mut self, path: &str, bytes: Vec<u8>) -> (r: &mut Self)
        ensures
            appended(r.entries@, old(self).entries@, path@, bytes@, 0),
            *final(self) == *final(r),
    {
        self.add_sparse(path, bytes, 0)
    }

    /// Add a file with a leading hole.
    pub fn add_sparse(&mut self, path: &str, bytes: Vec<u8>, hole: usize) -> (r: &mut Self)
        ensures
            appended(r.entries@, old(self).entries@, path@, bytes@, hole),
            *final(self) == *final(r),
    {
        self.entries.push(Entry { path: path.to_owned(), bytes, hole });
        assert(self.entries@.drop_last() =~= old(self).entries@);
        self
    }

    /// Total bytes of file content.
    pub fn total_bytes(&self) -> (n: usize)
        requires
            sum_bytes(self.entries@, self.entries@.len() as int) <= usize::MAX,
        ensures
            n == sum_bytes(self.entries@, self.entries@.len() as int),
    {
        let mut n: usize = 0;
        let mut i: usize = 0;
        while i < self.entries.len()
            invariant
                i <= self.entries@.len(),
                n == sum_bytes(self.entries@, i as int),
                sum_bytes(self.entries@, self.entries@.len() as int) <= usize::MAX,
            decreases self.entries@.len() - i,
        {
            proof {
                lemma_sum_grows(self.entries@, i + 1, self.entries@.len() as int);
            }
            n = n + self.entries[i].bytes.len();
            i = i + 1;
        }
        n
    }
}

/// A longer prefix holds no fewer bytes.
proof fn lemma_sum_grows(es: Seq<Entry>, i: int, j: int)
    requires
        i <= j,
    ensures
        sum_bytes(es, i) <= sum_bytes(es, j),
    decreases j - i,
{
    if i < j {
        lemma_sum_grows(es, i, j - 1);
    }
}

/// A name a directory can hold: not empty, not `.` or `..` (which every
/// directory already carries), and short enough for the name field.
pub open spec fn component_ok(c: Seq<char>) -> bool {
    &&& c.len() > 0
    &&& c != seq!['.']
    &&& c != seq!['.', '.']
    &&& vstd::utf8::encode_utf8(c).len() <= 60
}

/// The directory and the name of `/<dir>/<name>`. A path of any other shape has
/// neither.
pub open spec fn split_spec(p: Seq<char>) -> Option<(Seq<char>, Seq<char>)> {
    let j = text::end_of(p, 1);
    let dir = p.subrange(1, j);
    let name = p.subrange(j + 1, p.len() as int);
    if p.len() > 0 && p[0] == '/' && j < p.len() && text::end_of(p, j + 1) == p.len()
        && component_ok(dir) && component_ok(name) {
        Some((dir, name))
    } else {
        None
    }
}

/// Decide [`component_ok`].
fn check_component(c: &str) -> (ok: bool)
    ensures
        ok == component_ok(c@),
{
    let v = text::chars(c);
    if v.len() == 0 {
        return false;
    }
    if v.len() == 1 && v[0] == '.' {
        assert(c@ =~= seq!['.']);
        return false;
    }
    if v.len() == 2 && v[0] == '.' && v[1] == '.' {
        assert(c@ =~= seq!['.', '.']);
        return false;
    }
    c.as_bytes().len() <= NAME_MAX
}

/// Split `/<dir>/<name>` into its two components.
///
/// Rejects anything else: a bare `/name`, a deeper `/a/b/c`, a relative path, a
/// trailing slash, an empty component, a `.` or `..` component, or one too long
/// for the name field.
pub fn split_path(path: &str) -> (r: Result<(&str, &str), MkfsError>)
    ensures
        match r {
            Ok((dir, name)) => split_spec(path@) == Some((dir@, name@)),
            Err(e) => split_spec(path@) is None && e@ == Fault::BadPath(path@),
        },
{
    let p = text::chars(path);
    if p.len() == 0 || p[0] != '/' {
        return Err(MkfsError::BadPath(path.to_owned()));
    }
    let j: usize = find_end(&p, 1);
    if j >= p.len() {
        return Err(MkfsError::BadPath(path.to_owned()));
    }
    let k: usize = find_end(&p, j + 1);
    if k < p.len() {
        return Err(MkfsError::BadPath(path.to_owned()));
    }
    let dir = path.substring_char(1, j);
    let name = path.substring_char(j + 1, k);
    if !check_component(dir) || !check_component(name) {
        return Err(MkfsError::BadPath(path.to_owned()));
    }
    Ok((dir, name))
}

/// Where the component that starts at `i` ends.
fn find_end(p: &Vec<char>, i: usize) -> (j: usize)
    requires
        i <= p@.len(),
    ensures
        j == text::end_of(p@, i as int),
        i <= j <= p@.len(),
{
    let mut j: usize = i;
    while j < p.len() && p[j] != '/'
        invariant
            i <= j <= p@.len(),
            text::end_of(p@, i as int) == text::end_of(p@, j as int),
        decreases p@.len() - j,
    {
        j = j + 1;
    }
    j
}

} // verus!
