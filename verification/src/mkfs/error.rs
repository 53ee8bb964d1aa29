//! Why an image could not be built.
use vstd::prelude::*;
use vstd::string::*;
use crate::text;

verus! {

/// Why an image could not be built.
#[derive(Clone, PartialEq, Eq, Debug)]
pub enum MkfsError {
    /// The manifest needs more data blocks than the fixed image has; both
    /// numbers are block counts.
    TooBig { needed: u32, have: u32 },
    /// More inodes than the fixed image has.
    TooManyInodes { needed: u32, have: u32 },
    /// A path is not of the form `/<dir>/<name>`.
    BadPath(String),
    /// Two manifest entries name the same path.
    Duplicate(String),
    /// An entry's hole is not a whole number of blocks, covers the whole file, or
    /// names a prefix of the contents that is not already zero.
    BadHole(String),
}

/// What a [`MkfsError`] says, with its path as characters.
pub enum Fault {
    TooBig { needed: u32, have: u32 },
    TooManyInodes { needed: u32, have: u32 },
    BadPath(Seq<char>),
    Duplicate(Seq<char>),
    BadHole(Seq<char>),
}

impl View for MkfsError {
    type V = Fault;

    open spec fn view(&self) -> Fault {
        match *self {
            MkfsError::TooBig { needed, have } => Fault::TooBig { needed, have },
            MkfsError::TooManyInodes { needed, have } => Fault::TooManyInodes { needed, have },
            MkfsError::BadPath(p) => Fault::BadPath(p@),
            MkfsError::Duplicate(p) => Fault::Duplicate(p@),
            MkfsError::BadHole(p) => Fault::BadHole(p@),
        }
    }
}

/// What `Debug` writes for a text: the text in double quotes, with escapes.
pub uninterp spec fn quoted_text(s: Seq<char>) -> Seq<char>;

/// The text in double quotes, with escapes.
///
/// `core::fmt::Debug` of `str` is believed to write a text that depends on its
/// argument alone. Which characters it escapes, and how, is left unsaid.
#[verifier::external_body]
fn quoted(s: &str) -> (r: String)
    ensures
        r@ == quoted_text(s@),
{
    format!("{s:?}")
}

/// By how much `needed` exceeds `have`, and 0 when it does not.
pub open spec fn shortfall(needed: u32, have: u32) -> int {
    if needed > have {
        needed - have
    } else {
        0
    }
}

/// The line that tells a fault, with the path it names written as `path`.
pub open spec fn fault_line(f: Fault, path: Seq<char>) -> Seq<char> {
    match f {
        Fault::TooBig { needed, have } => "root image needs "@ + text::decimal(needed as int)
            + " data blocks but only "@ + text::decimal(have as int)
            + " are free; raise ROOTFS_IMAGE_BLOCKS (kernel-shared/src/rootfs.rs) by at least "@
            + text::decimal(shortfall(needed, have)),
        Fault::TooManyInodes { needed, have } => "root image needs "@ + text::decimal(needed as int)
            + " inodes but only "@ + text::decimal(have as int)
            + " exist; raise ROOTFS_NINODES (kernel-shared/src/rootfs.rs)"@,
        Fault::BadPath(_) => path + " is not of the form /<dir>/<name>"@,
        Fault::Duplicate(_) => path + " appears twice in the manifest"@,
        Fault::BadHole(_) => path
            + " has a hole that is not whole blocks of zeroes inside the file"@,
    }
}

/// The path a fault names; an empty one when it names none.
pub open spec fn fault_path(f: Fault) -> Seq<char> {
    match f {
        Fault::BadPath(p) => p,
        Fault::Duplicate(p) => p,
        Fault::BadHole(p) => p,
        _ => Seq::empty(),
    }
}

impl MkfsError {
    /// The line that tells this error, with the path it names written as `path`.
    /// A size that does not fit is told with the shortfall, so that the remedy is
    /// arithmetic.
    pub fn line(&self, path: &str) -> (s: String)
        ensures
            s@ == fault_line(self@, path@),
    {
        match self {
            MkfsError::TooBig { needed, have } => {
                let short: u32 = if *needed > *have {
                    *needed - *have
                } else {
                    0
                };
                let mut s = text::concat("root image needs ", text::to_decimal(*needed as i64).as_str());
                s.append(" data blocks but only ");
                s.append(text::to_decimal(*have as i64).as_str());
                s.append(
                    " are free; raise ROOTFS_IMAGE_BLOCKS (kernel-shared/src/rootfs.rs) by at least ",
                );
                s.append(text::to_decimal(short as i64).as_str());
                s
            },
            MkfsError::TooManyInodes { needed, have } => {
                let mut s = text::concat("root image needs ", text::to_decimal(*needed as i64).as_str());
                s.append(" inodes but only ");
                s.append(text::to_decimal(*have as i64).as_str());
                s.append(" exist; raise ROOTFS_NINODES (kernel-shared/src/rootfs.rs)");
                s
            },
            MkfsError::BadPath(_) => text::concat(path, " is not of the form /<dir>/<name>"),
            MkfsError::Duplicate(_) => text::concat(path, " appears twice in the manifest"),
            MkfsError::BadHole(_) => text::concat(
                path,
                " has a hole that is not whole blocks of zeroes inside the file",
            ),
        }
    }

    /// The line that tells this error, with the path it names in quotes.
    pub fn message(&self) -> (s: String)
        ensures
            s@ == fault_line(self@, quoted_text(fault_path(self@))),
    {
        let path = match self {
            MkfsError::BadPath(p) => quoted(p.as_str()),
            MkfsError::Duplicate(p) => quoted(p.as_str()),
            MkfsError::BadHole(p) => quoted(p.as_str()),
            _ => String::new(),
        };
        self.line(path.as_str())
    }
}

/// The shortfall is what must be added for the manifest to fit, and nothing when it fits.
pub proof fn law_shortfall_makes_up(needed: u32, have: u32)
    ensures
        needed > have ==> have + shortfall(needed, have) == needed,
        needed <= have ==> shortfall(needed, have) == 0,
{
}

/// What the line says of each fault: the numbers it names, in order, with the shortfall
/// where there is one; or the path, and what is wrong with it.
pub proof fn law_lines_tell_the_fault(needed: u32, have: u32, p: Seq<char>, path: Seq<char>)
    ensures
        fault_line(Fault::TooBig { needed, have }, path) == "root image needs "@ + (text::decimal(
            needed as int,
        ) + (" data blocks but only "@ + (text::decimal(have as int) + (
        " are free; raise ROOTFS_IMAGE_BLOCKS (kernel-shared/src/rootfs.rs) by at least "@
            + text::decimal(if needed > have { needed - have } else { 0 }))))),
        fault_line(Fault::TooManyInodes { needed, have }, path) == "root image needs "@ + (
        text::decimal(needed as int) + (" inodes but only "@ + (text::decimal(have as int)
            + " exist; raise ROOTFS_NINODES (kernel-shared/src/rootfs.rs)"@))),
        fault_line(Fault::BadPath(p), path) == path + " is not of the form /<dir>/<name>"@,
        fault_line(Fault::Duplicate(p), path) == path + " appears twice in the manifest"@,
        fault_line(Fault::BadHole(p), path) == path
            + " has a hole that is not whole blocks of zeroes inside the file"@,
        fault_path(Fault::BadPath(p)) == p,
        fault_path(Fault::Duplicate(p)) == p,
        fault_path(Fault::BadHole(p)) == p,
{
    let short = text::decimal(shortfall(needed, have));
    assert(fault_line(Fault::TooBig { needed, have }, path) =~= "root image needs "@ + (
    text::decimal(needed as int) + (" data blocks but only "@ + (text::decimal(have as int) + (
    " are free; raise ROOTFS_IMAGE_BLOCKS (kernel-shared/src/rootfs.rs) by at least "@ + short)))));
    assert(fault_line(Fault::TooManyInodes { needed, have }, path) =~= "root image needs "@ + (
    text::decimal(needed as int) + (" inodes but only "@ + (text::decimal(have as int)
        + " exist; raise ROOTFS_NINODES (kernel-shared/src/rootfs.rs)"@))));
}

} // verus!
