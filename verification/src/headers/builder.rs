//! Append-only writer for a generated C file, and the parser that reads its
//! macros back.
use vstd::prelude::*;
use vstd::string::*;
use crate::text;

pub use crate::headers::macros::{define_value, defines};

verus! {

/// Column the value in a `#define` is padded out to.
pub const DEFINE_WIDTH: usize = 24;

/// A C translation unit or header under construction.
pub struct CFile {
    pub out: String,
}

/// `t` and one more line.
pub open spec fn line(t: Seq<char>, s: Seq<char>) -> Seq<char> {
    t + s + "\n"@
}

/// `t` and an empty line.
pub open spec fn blank(t: Seq<char>) -> Seq<char> {
    t + "\n"@
}

/// `t` and one banner line for each of the first `n` sources.
pub open spec fn source_lines(t: Seq<char>, sources: Seq<&str>, n: int) -> Seq<char>
    decreases n,
{
    if n <= 0 {
        t
    } else {
        line(source_lines(t, sources, n - 1), " *     "@ + sources[n - 1]@)
    }
}

/// The start of the banner, up to the title.
pub open spec fn banner_head() -> Seq<char> {
    let t = line(Seq::empty(), "/* SPDX-License-Identifier: BSD-3-Clause */"@);
    let t = line(t, "/* Copyright (c) 2025-2026 Kevin Barnard and minix.rs Contributors */"@);
    let t = line(t, "/*"@);
    let t = line(t, " * GENERATED FILE -- DO NOT EDIT."@);
    line(t, " *"@)
}

/// The end of the banner, after the sources.
pub open spec fn banner_tail(t: Seq<char>) -> Seq<char> {
    let t = line(t, " * Regenerate with `cargo gen-c-headers`."@);
    let t = line(t, " *"@);
    let t = line(t, " * A build artifact, deliberately never committed (phase-5 decision D8):"@);
    let t = line(t, " * the Rust constants are the single source of truth, so drift is"@);
    let t = line(t, " * impossible by construction rather than caught by a test."@);
    line(t, " */"@)
}

/// The licence line, the generated-file warning, the title, and the files the
/// content is derived from.
pub open spec fn banner(title: Seq<char>, sources: Seq<&str>) -> Seq<char> {
    let t = line(banner_head(), " * "@ + title);
    let t = line(t, " *"@);
    let t = line(t, " * Produced by tools/gen-c-headers from the live constants in the"@);
    let t = line(t, " * minixrs-kernel-shared crate:"@);
    banner_tail(source_lines(t, sources, sources.len() as int))
}

/// `t` and the opening of a header guard.
pub open spec fn guard_open(t: Seq<char>, guard: Seq<char>) -> Seq<char> {
    line(line(blank(t), "#ifndef "@ + guard), "#define "@ + guard)
}

/// `t` and the closing of a header guard.
pub open spec fn guard_close(t: Seq<char>, guard: Seq<char>) -> Seq<char> {
    line(blank(t), "#endif /* "@ + guard + " */"@)
}

/// `t` and a one-line section banner.
pub open spec fn section(t: Seq<char>, title: Seq<char>) -> Seq<char> {
    line(blank(t), "/* ---- "@ + title + " ---- */"@)
}

/// `t` and the first `n` lines of a comment's body.
pub open spec fn comment_lines(t: Seq<char>, lines: Seq<&str>, n: int) -> Seq<char>
    decreases n,
{
    if n <= 0 {
        t
    } else if lines[n - 1]@.len() == 0 {
        line(comment_lines(t, lines, n - 1), " *"@)
    } else {
        line(comment_lines(t, lines, n - 1), " * "@ + lines[n - 1]@)
    }
}

/// `t` and a block comment.
pub open spec fn block_comment(t: Seq<char>, lines: Seq<&str>) -> Seq<char> {
    line(comment_lines(line(blank(t), "/*"@), lines, lines.len() as int), " */"@)
}

/// `t` and the line that pulls in `header`, with a rationale.
pub open spec fn include_line(t: Seq<char>, header: Seq<char>, why: Seq<char>) -> Seq<char> {
    line(t, "#include <"@ + header + ">   /* "@ + why + " */"@)
}

/// `n` spaces.
pub open spec fn spaces(n: nat) -> Seq<char> {
    Seq::new(n, |i: int| ' ')
}

/// `s` padded with spaces to `width` characters.
pub open spec fn padded(s: Seq<char>, width: int) -> Seq<char> {
    if s.len() >= width {
        s
    } else {
        s + spaces((width - s.len()) as nat)
    }
}

/// `t` and a macro with the value column aligned.
pub open spec fn define_raw(t: Seq<char>, name: Seq<char>, value: Seq<char>) -> Seq<char> {
    line(t, "#define "@ + padded(name, DEFINE_WIDTH as int) + " "@ + value)
}

/// A decimal macro value: negative numbers are parenthesized.
pub open spec fn dec_value(v: int) -> Seq<char> {
    if v < 0 {
        "("@ + text::decimal(v) + ")"@
    } else {
        text::decimal(v)
    }
}

/// A hexadecimal macro value.
pub open spec fn hex_value(v: int) -> Seq<char> {
    "0x"@ + text::numeral(v as nat, 16)
}

/// An endpoint macro value.
pub open spec fn ep_value(v: int) -> Seq<char> {
    "((endpoint_t) "@ + text::decimal(v) + ")"@
}

/// `t` and a decimal macro.
pub open spec fn define_dec(t: Seq<char>, name: Seq<char>, v: int) -> Seq<char> {
    define_raw(t, name, dec_value(v))
}

/// `t` and a hexadecimal macro.
pub open spec fn define_hex(t: Seq<char>, name: Seq<char>, v: int) -> Seq<char> {
    define_raw(t, name, hex_value(v))
}

/// `t` and an endpoint macro.
pub open spec fn define_ep(t: Seq<char>, name: Seq<char>, v: int) -> Seq<char> {
    define_raw(t, name, ep_value(v))
}

/// `t` and a compile-time assertion.
pub open spec fn static_assert(t: Seq<char>, expr: Seq<char>, msg: Seq<char>) -> Seq<char> {
    line(t, "_Static_assert("@ + expr + ", \""@ + msg + "\");"@)
}

impl View for CFile {
    type V = Seq<char>;

    open spec fn view(&self) -> Seq<char> {
        self.out@
    }
}

impl CFile {
    /// Start a file with the shared banner. `sources` names the files the content
    /// is derived from.
    pub fn new(title: &str, sources: &[&str]) -> (f: CFile)
        ensures
            f@ == banner(title@, sources@),
    {
        let mut f = CFile { out: String::new() };
        f.line("/* SPDX-License-Identifier: BSD-3-Clause */");
        f.line("/* Copyright (c) 2025-2026 Kevin Barnard and minix.rs Contributors */");
        f.line("/*");
        f.line(" * GENERATED FILE -- DO NOT EDIT.");
        f.line(" *");
        f.line(text::concat(" * ", title).as_str());
        f.line(" *");
        f.line(" * Produced by tools/gen-c-headers from the live constants in the");
        f.line(" * minixrs-kernel-shared crate:");
        let ghost t = f@;
        let mut i: usize = 0;
        while i < sources.len()
            invariant
                i <= sources@.len(),
                f@ == source_lines(t, sources@, i as int),
            decreases sources@.len() - i,
        {
            f.line(text::concat(" *     ", sources[i]).as_str());
            i = i + 1;
        }
        f.line(" * Regenerate with `cargo gen-c-headers`.");
        f.line(" *");
        f.line(" * A build artifact, deliberately never committed (phase-5 decision D8):");
        f.line(" * the Rust constants are the single source of truth, so drift is");
        f.line(" * impossible by construction rather than caught by a test.");
        f.line(" */");
        f
    }

    /// Append one line.
    pub fn line(&mut self, s: &str)
        ensures
            final(self)@ == line(old(self)@, s@),
    {
        self.out.append(s);
        self.out.append("\n");
    }

    /// Append a blank line.
    pub fn blank(&mut self)
        ensures
            final(self)@ == blank(old(self)@),
    {
        self.out.append("\n");
    }

    /// Open a header guard.
    pub fn guard_open(&mut self, guard: &str)
        ensures
            final(self)@ == guard_open(old(self)@, guard@),
    {
        self.blank();
        self.line(text::concat("#ifndef ", guard).as_str());
        self.line(text::concat("#define ", guard).as_str());
    }

    /// Close a header guard opened by [`CFile::guard_open`].
    pub fn guard_close(&mut self, guard: &str)
        ensures
            final(self)@ == guard_close(old(self)@, guard@),
    {
        self.blank();
        self.line(text::concat3("#endif /* ", guard, " */").as_str());
    }

    /// A one-line section banner.
    pub fn section(&mut self, title: &str)
        ensures
            final(self)@ == section(old(self)@, title@),
    {
        self.blank();
        self.line(text::concat3("/* ---- ", title, " ---- */").as_str());
    }

    /// A multi-line block comment.
    pub fn block_comment(&mut self, lines: &[&str])
        ensures
            final(self)@ == block_comment(old(self)@, lines@),
    {
        self.blank();
        self.line("/*");
        let ghost t = self@;
        let mut i: usize = 0;
        while i < lines.len()
            invariant
                i <= lines@.len(),
                self@ == comment_lines(t, lines@, i as int),
            decreases lines@.len() - i,
        {
            let l = lines[i];
            if l.is_empty() {
                self.line(" *");
            } else {
                self.line(text::concat(" * ", l).as_str());
            }
            i = i + 1;
        }
        self.line(" */");
    }

    /// Pull in a header, with a trailing rationale comment.
    pub fn include_header(&mut self, header: &str, why: &str)
        ensures
            final(self)@ == include_line(old(self)@, header@, why@),
    {
        let mut s = text::concat3("#include <", header, ">   /* ");
        s.append(why);
        s.append(" */");
        self.line(s.as_str());
    }

    /// `#define NAME value` in decimal. Negative values are parenthesized, so
    /// `x-NAME` cannot mis-parse at the use site.
    pub fn define_dec(&mut self, name: &str, value: i64)
        ensures
            final(self)@ == define_dec(old(self)@, name@, value as int),
    {
        let digits = text::to_decimal(value);
        if value < 0 {
            self.define_raw(name, text::concat3("(", digits.as_str(), ")").as_str());
        } else {
            self.define_raw(name, digits.as_str());
        }
    }

    /// `#define NAME 0xVALUE`, for call numbers and request bands.
    pub fn define_hex(&mut self, name: &str, value: i64)
        requires
            value >= 0,
        ensures
            final(self)@ == define_hex(old(self)@, name@, value as int),
    {
        let digits = text::to_base(value as u64, 16);
        self.define_raw(name, text::concat("0x", digits.as_str()).as_str());
    }

    /// `#define NAME ((endpoint_t) value)`: an endpoint, never a proc number.
    pub fn define_ep(&mut self, name: &str, value: i32)
        ensures
            final(self)@ == define_ep(old(self)@, name@, value as int),
    {
        let digits = text::to_decimal(value as i64);
        self.define_raw(name, text::concat3("((endpoint_t) ", digits.as_str(), ")").as_str());
    }

    /// `#define NAME <text>` with the value column aligned.
    pub fn define_raw(&mut self, name: &str, text: &str)
        ensures
            final(self)@ == define_raw(old(self)@, name@, text@),
    {
        let mut s = text::concat("#define ", pad(name).as_str());
        s.append(" ");
        s.append(text);
        self.line(s.as_str());
    }

    /// A C11 `_Static_assert`. The message must not contain a double quote.
    pub fn static_assert(&mut self, expr: &str, msg: &str)
        requires
            !msg@.contains('"'),
        ensures
            final(self)@ == static_assert(old(self)@, expr@, msg@),
    {
        let mut s = text::concat3("_Static_assert(", expr, ", \"");
        s.append(msg);
        s.append("\");");
        self.line(s.as_str());
    }

    /// Finish the file.
    pub fn finish(self) -> (s: String)
        ensures
            s@ == self@,
    {
        self.out
    }
}

/// Pad a macro name to the value column.
fn pad(name: &str) -> (s: String)
    ensures
        s@ == padded(name@, DEFINE_WIDTH as int),
{
    let n: usize = name.unicode_len();
    let mut s: String = name.to_owned();
    let mut i: usize = n;
    assert(s@ =~= s@ + spaces(0));
    while i < DEFINE_WIDTH
        invariant
            n == name@.len(),
            n <= i,
            n < DEFINE_WIDTH ==> i <= DEFINE_WIDTH,
            n >= DEFINE_WIDTH ==> i == n,
            s@ == name@ + spaces((i - n) as nat),
        decreases DEFINE_WIDTH - i,
    {
        s.push(' ');
        i = i + 1;
        assert(s@ =~= name@ + spaces((i - n) as nat));
    }
    assert(n >= DEFINE_WIDTH ==> s@ =~= name@);
    s
}

} // verus!
