//! How the parts of a generated file read, line by line.
use vstd::prelude::*;
use vstd::string::*;
use crate::headers::builder;
use crate::headers::macros;
use crate::headers::selftest;

verus! {

/// One line of text: no newline in it, and no carriage return at its end.
pub open spec fn one_line(s: Seq<char>) -> bool {
    &&& !s.contains('\n')
    &&& s.len() == 0 || s.last() != '\r'
}

/// Lines joined around a text stay lines.
proof fn lemma_joined(a: Seq<char>, s: Seq<char>, b: Seq<char>)
    requires
        !a.contains('\n'),
        !s.contains('\n'),
        !b.contains('\n'),
    ensures
        !(a + s + b).contains('\n'),
{
    let all = a + s + b;
    if all.contains('\n') {
        let i = choose|i: int| 0 <= i < all.len() && all[i] == '\n';
        if i < a.len() {
            assert(a[i] == '\n');
        } else if i < a.len() + s.len() {
            assert(s[i - a.len()] == '\n');
        } else {
            assert(b[i - a.len() - s.len()] == '\n');
        }
    }
}

/// A line is one line more, after all that were there; an empty one too.
proof fn lemma_line(t: Seq<char>, s: Seq<char>)
    requires
        macros::whole_lines(t),
        one_line(s),
    ensures
        macros::lines_from(builder::line(t, s), 0) == macros::lines_from(t, 0).push(s),
        macros::whole_lines(builder::line(t, s)),
        builder::blank(t) == builder::line(t, Seq::empty()),
{
    macros::law_line_reads_back(t, s);
    assert(builder::blank(t) =~= builder::line(t, Seq::empty()));
}

/// A header guard reads as a test of its macro and the definition of the same macro, in
/// that order, after an empty line; it is closed by the end of the test, with the macro
/// named behind it.
pub proof fn law_guard_lines(t: Seq<char>, guard: Seq<char>)
    requires
        macros::whole_lines(t),
        one_line(guard),
    ensures
        macros::lines_from(builder::guard_open(t, guard), 0) == macros::lines_from(t, 0).push(
            Seq::empty(),
        ).push("#ifndef "@ + guard).push("#define "@ + guard),
        macros::lines_from(builder::guard_close(t, guard), 0) == macros::lines_from(t, 0).push(
            Seq::empty(),
        ).push("#endif /* "@ + guard + " */"@),
        macros::whole_lines(builder::guard_open(t, guard)),
        macros::whole_lines(builder::guard_close(t, guard)),
{
    reveal_strlit("#ifndef ");
    reveal_strlit("#define ");
    reveal_strlit("#endif /* ");
    reveal_strlit(" */");
    let none = Seq::<char>::empty();
    lemma_joined("#ifndef "@, guard, none);
    lemma_joined("#define "@, guard, none);
    lemma_joined("#endif /* "@, guard, " */"@);
    let a = "#ifndef "@ + guard;
    let b = "#define "@ + guard;
    assert(a + none =~= a);
    assert(b + none =~= b);
    lemma_line(t, none);
    let u = builder::blank(t);
    lemma_line(u, a);
    lemma_line(builder::line(u, a), b);
    lemma_line(u, "#endif /* "@ + guard + " */"@);
}

/// A section title and a compile-time check are a line each, the title after an empty
/// one; the check names its expression first and its message behind it, in quotes.
pub proof fn law_section_and_assertion_lines(
    t: Seq<char>,
    title: Seq<char>,
    expr: Seq<char>,
    msg: Seq<char>,
)
    requires
        macros::whole_lines(t),
        one_line(title),
        one_line(expr),
        one_line(msg),
    ensures
        macros::lines_from(builder::section(t, title), 0) == macros::lines_from(t, 0).push(
            Seq::empty(),
        ).push("/* ---- "@ + title + " ---- */"@),
        macros::lines_from(builder::static_assert(t, expr, msg), 0) == macros::lines_from(t, 0).push(
            "_Static_assert("@ + expr + ", \""@ + msg + "\");"@,
        ),
{
    reveal_strlit("/* ---- ");
    reveal_strlit(" ---- */");
    reveal_strlit("_Static_assert(");
    reveal_strlit(", \"");
    reveal_strlit("\");");
    lemma_joined("/* ---- "@, title, " ---- */"@);
    lemma_line(t, Seq::empty());
    lemma_line(builder::blank(t), "/* ---- "@ + title + " ---- */"@);
    lemma_joined("_Static_assert("@, expr, ", \""@);
    lemma_joined("_Static_assert("@ + expr + ", \""@, msg, "\");"@);
    lemma_line(t, "_Static_assert("@ + expr + ", \""@ + msg + "\");"@);
}

/// A macro is padded to its column with spaces and nothing else, and never cut.
pub proof fn law_padding_keeps_the_name(s: Seq<char>, width: int)
    ensures
        s.is_prefix_of(builder::padded(s, width)),
        builder::padded(s, width).len() == s.len() || builder::padded(s, width).len() == width,
        builder::padded(s, width).len() >= width,
        forall|i: int|
            s.len() <= i < builder::padded(s, width).len() ==> #[trigger] builder::padded(
                s,
                width,
            )[i] == ' ',
{
    assert(builder::padded(s, width).take(s.len() as int) =~= s);
}

/// The self-check names the four headers in the order they depend on one another, a line
/// each.
pub proof fn law_headers_in_order(t: Seq<char>, n: int, k: int)
    requires
        macros::whole_lines(t),
        0 <= k < n <= 4,
    ensures
        macros::lines_from(selftest::headers_text(t, n), 0).len() == macros::lines_from(t, 0).len()
            + n,
        macros::lines_from(selftest::headers_text(t, n), 0)[macros::lines_from(t, 0).len() + k]
            == "#include <"@ + selftest::HEADERS@[k]@ + ">"@,
        macros::whole_lines(selftest::headers_text(t, n)),
    decreases n,
{
    lemma_header_lines(n - 1);
    if n == 1 {
        assert(selftest::headers_text(t, 0) == t);
    } else {
        law_headers_in_order(t, n - 1, if k < n - 1 { k } else { 0 });
    }
    lemma_line(selftest::headers_text(t, n - 1), "#include <"@ + selftest::HEADERS@[n - 1]@ + ">"@);
}

/// No header's name holds a newline.
proof fn lemma_header_lines(k: int)
    requires
        0 <= k < 4,
    ensures
        one_line("#include <"@ + selftest::HEADERS@[k]@ + ">"@),
{
    reveal_strlit("minix/ipc.h");
    reveal_strlit("minix/com.h");
    reveal_strlit("minix/callnr.h");
    reveal_strlit("minix/errno.h");
    reveal_strlit("#include <");
    reveal_strlit(">");
    lemma_joined("#include <"@, selftest::HEADERS@[k]@, ">"@);
}

} // verus!
