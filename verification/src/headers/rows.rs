//! The macros that each piece of a rendered file adds: one row for each number of a
//! table, and none for comments, guards and assertions.
use vstd::prelude::*;
use crate::headers::builder;
use crate::headers::macros;
use crate::headers::tables;
use crate::text;

verus! {

/// A macro as it is read back: its name and its value.
pub type Row = (Seq<char>, Seq<char>);

/// Text that stays on one line.
pub open spec fn one_line(s: Seq<char>) -> bool {
    forall|i: int| 0 <= i < s.len() ==> #[trigger] s[i] != '\n' && s[i] != '\r'
}

/// Every number of a table has the name of a macro.
pub open spec fn named(tab: Seq<(&str, i64)>) -> bool {
    forall|i: int| 0 <= i < tab.len() ==> macros::plain_name((#[trigger] tab[i]).0@)
}

/// The rows of a table whose numbers are written in decimal.
pub open spec fn dec_rows(tab: Seq<(&str, i64)>) -> Seq<Row> {
    Seq::new(tab.len(), |i: int| (tab[i].0@, builder::dec_value(tab[i].1 as int)))
}

/// The rows of a table whose numbers are written in hexadecimal.
pub open spec fn hex_rows(tab: Seq<(&str, i64)>) -> Seq<Row> {
    Seq::new(tab.len(), |i: int| (tab[i].0@, builder::hex_value(tab[i].1 as int)))
}

/// `u` is whole lines, and defines what `t` does and then these rows.
pub open spec fn adds(t: Seq<char>, u: Seq<char>, rows: Seq<Row>) -> bool {
    macros::whole_lines(u) && macros::macros(u) == macros::macros(t) + rows
}

/// Two pieces after one another add the rows of both.
pub proof fn lemma_adds(t: Seq<char>, u: Seq<char>, v: Seq<char>, a: Seq<Row>, b: Seq<Row>)
    requires
        adds(t, u, a),
        adds(u, v, b),
    ensures
        adds(t, v, a + b),
{
    assert(macros::macros(t) + a + b =~= macros::macros(t) + (a + b));
}

/// A piece that adds no row leaves the rows before it.
pub proof fn lemma_adds_none(t: Seq<char>, u: Seq<char>, v: Seq<char>, a: Seq<Row>)
    requires
        adds(t, u, a),
        adds(u, v, Seq::empty()),
    ensures
        adds(t, v, a),
{
    lemma_adds(t, u, v, a, Seq::empty());
    assert(a + Seq::<Row>::empty() =~= a);
}

/// A line that defines nothing adds no row.
pub proof fn lemma_line(t: Seq<char>, s: Seq<char>)
    requires
        macros::whole_lines(t),
        one_line(s),
        macros::macro_of(s) is None,
    ensures
        adds(t, builder::line(t, s), Seq::empty()),
{
    macros::law_line_reads_back(t, s);
    assert(macros::macros(t) + Seq::<Row>::empty() =~= macros::macros(t));
}

/// A line that does not start like a directive adds no row.
pub proof fn lemma_text(t: Seq<char>, s: Seq<char>)
    requires
        macros::whole_lines(t),
        one_line(s),
        s.len() == 0 || s[0] != '#',
    ensures
        adds(t, builder::line(t, s), Seq::empty()),
{
    reveal_strlit("#define ");
    assert(s.len() >= 8 ==> s.take(8)[0] == s[0]);
    lemma_line(t, s);
}

/// An empty line adds no row.
pub proof fn lemma_blank(t: Seq<char>)
    requires
        macros::whole_lines(t),
    ensures
        adds(t, builder::blank(t), Seq::empty()),
{
    assert(builder::line(t, Seq::empty()) =~= builder::blank(t));
    lemma_text(t, Seq::empty());
}

/// A section banner adds no row.
pub proof fn lemma_section(t: Seq<char>, title: Seq<char>)
    requires
        macros::whole_lines(t),
        one_line(title),
    ensures
        adds(t, builder::section(t, title), Seq::empty()),
{
    reveal_strlit("/* ---- ");
    reveal_strlit(" ---- */");
    lemma_blank(t);
    lemma_text(builder::blank(t), "/* ---- "@ + title + " ---- */"@);
    lemma_adds_none(t, builder::blank(t), builder::section(t, title), Seq::empty());
}

/// The lines of a comment add no row.
proof fn lemma_comment_lines(t: Seq<char>, lines: Seq<&str>, n: int)
    requires
        macros::whole_lines(t),
        0 <= n <= lines.len(),
        forall|i: int| 0 <= i < lines.len() ==> one_line((#[trigger] lines[i])@),
    ensures
        adds(t, builder::comment_lines(t, lines, n), Seq::empty()),
    decreases n,
{
    reveal_strlit(" *");
    reveal_strlit(" * ");
    if n > 0 {
        let before = builder::comment_lines(t, lines, n - 1);
        lemma_comment_lines(t, lines, n - 1);
        assert(one_line(lines[n - 1]@));
        if lines[n - 1]@.len() == 0 {
            lemma_text(before, " *"@);
        } else {
            lemma_text(before, " * "@ + lines[n - 1]@);
        }
        lemma_adds_none(t, before, builder::comment_lines(t, lines, n), Seq::empty());
    } else {
        assert(macros::macros(t) + Seq::<Row>::empty() =~= macros::macros(t));
    }
}

/// A block comment adds no row.
pub proof fn lemma_block_comment(t: Seq<char>, lines: Seq<&str>)
    requires
        macros::whole_lines(t),
        forall|i: int| 0 <= i < lines.len() ==> one_line((#[trigger] lines[i])@),
    ensures
        adds(t, builder::block_comment(t, lines), Seq::empty()),
{
    reveal_strlit("/*");
    reveal_strlit(" */");
    let a = builder::blank(t);
    let b = builder::line(a, "/*"@);
    let c = builder::comment_lines(b, lines, lines.len() as int);
    lemma_blank(t);
    lemma_text(a, "/*"@);
    lemma_comment_lines(b, lines, lines.len() as int);
    lemma_text(c, " */"@);
    lemma_adds_none(t, a, b, Seq::empty());
    lemma_adds_none(t, b, c, Seq::empty());
    lemma_adds_none(t, c, builder::block_comment(t, lines), Seq::empty());
}

/// Pulling in a header adds no row.
pub proof fn lemma_include_line(t: Seq<char>, header: Seq<char>, why: Seq<char>)
    requires
        macros::whole_lines(t),
        one_line(header),
        one_line(why),
    ensures
        adds(t, builder::include_line(t, header, why), Seq::empty()),
{
    reveal_strlit("#include <");
    reveal_strlit(">   /* ");
    reveal_strlit(" */");
    reveal_strlit("#define ");
    let s = "#include <"@ + header + ">   /* "@ + why + " */"@;
    assert(s.take(8)[1] == 'i');
    lemma_line(t, s);
}

/// The opening of a header guard adds no row: its macro has no value.
pub proof fn lemma_guard_open(t: Seq<char>, guard: Seq<char>)
    requires
        macros::whole_lines(t),
        macros::plain_name(guard),
    ensures
        adds(t, builder::guard_open(t, guard), Seq::empty()),
{
    reveal_strlit("#ifndef ");
    reveal_strlit("#define ");
    assert(one_line(guard)) by {
        assert forall|i: int| 0 <= i < guard.len() implies #[trigger] guard[i] != '\n' && guard[i]
            != '\r' by {
            assert(!text::is_space(guard[i]));
        }
    }
    let a = builder::blank(t);
    let b = builder::line(a, "#ifndef "@ + guard);
    lemma_blank(t);
    assert(("#ifndef "@ + guard).take(8)[1] == 'i');
    lemma_line(a, "#ifndef "@ + guard);
    let s = "#define "@ + guard;
    assert(s.skip(8) =~= guard);
    macros::lemma_space_from(guard, 0);
    assert(macros::space_from(guard, 0) == guard.len());
    lemma_line(b, s);
    lemma_adds_none(t, a, b, Seq::empty());
    lemma_adds_none(t, b, builder::guard_open(t, guard), Seq::empty());
}

/// The closing of a header guard adds no row.
pub proof fn lemma_guard_close(t: Seq<char>, guard: Seq<char>)
    requires
        macros::whole_lines(t),
        one_line(guard),
    ensures
        adds(t, builder::guard_close(t, guard), Seq::empty()),
{
    reveal_strlit("#endif /* ");
    reveal_strlit(" */");
    reveal_strlit("#define ");
    let a = builder::blank(t);
    let s = "#endif /* "@ + guard + " */"@;
    lemma_blank(t);
    assert(s.take(8)[1] == 'e');
    lemma_line(a, s);
    lemma_adds_none(t, a, builder::guard_close(t, guard), Seq::empty());
}

/// An assertion adds no row.
pub proof fn lemma_static_assert(t: Seq<char>, expr: Seq<char>, msg: Seq<char>)
    requires
        macros::whole_lines(t),
        one_line(expr),
        one_line(msg),
    ensures
        adds(t, builder::static_assert(t, expr, msg), Seq::empty()),
{
    reveal_strlit("_Static_assert(");
    reveal_strlit(", \"");
    reveal_strlit("\");");
    lemma_text(t, "_Static_assert("@ + expr + ", \""@ + msg + "\");"@);
}

/// The assertions of a table add no row.
pub proof fn lemma_asserts(t: Seq<char>, tab: Seq<(&str, &str)>, n: int)
    requires
        macros::whole_lines(t),
        0 <= n <= tab.len(),
        forall|i: int|
            0 <= i < tab.len() ==> one_line((#[trigger] tab[i]).0@) && one_line(tab[i].1@),
    ensures
        adds(t, tables::asserts(t, tab, n), Seq::empty()),
    decreases n,
{
    if n > 0 {
        let before = tables::asserts(t, tab, n - 1);
        lemma_asserts(t, tab, n - 1);
        lemma_static_assert(before, tab[n - 1].0@, tab[n - 1].1@);
        lemma_adds_none(t, before, tables::asserts(t, tab, n), Seq::empty());
    } else {
        assert(macros::macros(t) + Seq::<Row>::empty() =~= macros::macros(t));
    }
}

/// A number in decimal adds its row.
pub proof fn lemma_dec(t: Seq<char>, name: Seq<char>, v: int)
    requires
        macros::whole_lines(t),
        macros::plain_name(name),
    ensures
        adds(t, builder::define_dec(t, name, v), seq![(name, builder::dec_value(v))]),
{
    reveal_strlit("\n");
    macros::law_numbers_read_back(t, name, v);
    assert(builder::define_dec(t, name, v).last() == '\n');
    let row = (name, builder::dec_value(v));
    assert(macros::macros(t).push(row) =~= macros::macros(t) + seq![row]);
}

/// A number in hexadecimal adds its row.
pub proof fn lemma_hex(t: Seq<char>, name: Seq<char>, v: int)
    requires
        macros::whole_lines(t),
        macros::plain_name(name),
        v >= 0,
    ensures
        adds(t, builder::define_hex(t, name, v), seq![(name, builder::hex_value(v))]),
{
    reveal_strlit("\n");
    macros::law_numbers_read_back(t, name, v);
    assert(builder::define_hex(t, name, v).last() == '\n');
    let row = (name, builder::hex_value(v));
    assert(macros::macros(t).push(row) =~= macros::macros(t) + seq![row]);
}

/// A table in decimal adds its rows.
pub proof fn lemma_decs(t: Seq<char>, tab: Seq<(&str, i64)>, n: int)
    requires
        macros::whole_lines(t),
        0 <= n <= tab.len(),
        named(tab),
    ensures
        adds(t, tables::decs(t, tab, n), dec_rows(tab).take(n)),
    decreases n,
{
    if n > 0 {
        let before = tables::decs(t, tab, n - 1);
        lemma_decs(t, tab, n - 1);
        assert(macros::plain_name(tab[n - 1].0@));
        lemma_dec(before, tab[n - 1].0@, tab[n - 1].1 as int);
        let row = dec_rows(tab)[n - 1];
        lemma_adds(t, before, tables::decs(t, tab, n), dec_rows(tab).take(n - 1), seq![row]);
        assert(dec_rows(tab).take(n - 1) + seq![row] =~= dec_rows(tab).take(n));
    } else {
        assert(macros::macros(t) + dec_rows(tab).take(0) =~= macros::macros(t));
    }
}

/// A table in hexadecimal adds its rows.
pub proof fn lemma_hexes(t: Seq<char>, tab: Seq<(&str, i64)>, n: int)
    requires
        macros::whole_lines(t),
        0 <= n <= tab.len(),
        named(tab),
        forall|i: int| 0 <= i < tab.len() ==> (#[trigger] tab[i]).1 >= 0,
    ensures
        adds(t, tables::hexes(t, tab, n), hex_rows(tab).take(n)),
    decreases n,
{
    if n > 0 {
        let before = tables::hexes(t, tab, n - 1);
        lemma_hexes(t, tab, n - 1);
        assert(macros::plain_name(tab[n - 1].0@));
        assert(tab[n - 1].1 >= 0);
        lemma_hex(before, tab[n - 1].0@, tab[n - 1].1 as int);
        let row = hex_rows(tab)[n - 1];
        lemma_adds(t, before, tables::hexes(t, tab, n), hex_rows(tab).take(n - 1), seq![row]);
        assert(hex_rows(tab).take(n - 1) + seq![row] =~= hex_rows(tab).take(n));
    } else {
        assert(macros::macros(t) + hex_rows(tab).take(0) =~= macros::macros(t));
    }
}

/// A function-like macro: a parenthesis stands in its name ahead of any white space.
pub open spec fn function_like(name: Seq<char>, at: int) -> bool {
    &&& 0 <= at < name.len()
    &&& name[at] == '('
    &&& forall|i: int| 0 <= i < at ==> !text::is_space(#[trigger] name[i])
}

/// The line of a function-like macro defines no row.
proof fn lemma_function_line(name: Seq<char>, at: int, value: Seq<char>)
    requires
        function_like(name, at),
    ensures
        macros::macro_of(
            "#define "@ + builder::padded(name, builder::DEFINE_WIDTH as int) + " "@ + value,
        ) is None,
{
    reveal_strlit("#define ");
    let pad = builder::padded(name, builder::DEFINE_WIDTH as int);
    let s = "#define "@ + pad + " "@ + value;
    let rest = s.skip(8);
    macros::lemma_space_from(rest, 0);
    let k = macros::space_from(rest, 0);
    assert(forall|i: int| 0 <= i < name.len() ==> rest[i] == name[i]);
    assert(k > at) by {
        if k < at {
            assert(!text::is_space(name[k]));
        }
    }
    assert(rest.take(k)[at] == '(');
}

/// A function-like macro on one line adds no row.
pub proof fn lemma_function(t: Seq<char>, name: Seq<char>, at: int, value: Seq<char>)
    requires
        macros::whole_lines(t),
        function_like(name, at),
        one_line(name),
        one_line(value),
    ensures
        adds(t, builder::define_raw(t, name, value), Seq::empty()),
{
    reveal_strlit("#define ");
    reveal_strlit(" ");
    lemma_function_line(name, at, value);
    lemma_line(
        t,
        "#define "@ + builder::padded(name, builder::DEFINE_WIDTH as int) + " "@ + value,
    );
}

/// A function-like macro that goes on over a second line adds no row.
pub proof fn lemma_long_function(
    t: Seq<char>,
    name: Seq<char>,
    at: int,
    first: Seq<char>,
    second: Seq<char>,
)
    requires
        macros::whole_lines(t),
        function_like(name, at),
        one_line(name),
        one_line(first),
        one_line(second),
        second.len() > 0,
        second[0] != '#',
    ensures
        adds(t, builder::define_raw(t, name, first + seq!['\n'] + second), Seq::empty()),
{
    reveal_strlit("\n");
    let mid = builder::define_raw(t, name, first);
    lemma_function(t, name, at, first);
    lemma_text(mid, second);
    lemma_adds_none(t, mid, builder::line(mid, second), Seq::empty());
    assert(builder::define_raw(t, name, first + seq!['\n'] + second) =~= builder::line(
        mid,
        second,
    ));
}

/// The lines that name the sources add no row.
proof fn lemma_source_lines(t: Seq<char>, sources: Seq<&str>, n: int)
    requires
        macros::whole_lines(t),
        0 <= n <= sources.len(),
        forall|i: int| 0 <= i < sources.len() ==> one_line((#[trigger] sources[i])@),
    ensures
        adds(t, builder::source_lines(t, sources, n), Seq::empty()),
    decreases n,
{
    reveal_strlit(" *     ");
    if n > 0 {
        let before = builder::source_lines(t, sources, n - 1);
        lemma_source_lines(t, sources, n - 1);
        assert(one_line(sources[n - 1]@));
        lemma_text(before, " *     "@ + sources[n - 1]@);
        lemma_adds_none(t, before, builder::source_lines(t, sources, n), Seq::empty());
    } else {
        assert(macros::macros(t) + Seq::<Row>::empty() =~= macros::macros(t));
    }
}

/// The start of the banner defines nothing.
proof fn lemma_banner_head()
    ensures
        adds(Seq::empty(), builder::banner_head(), Seq::empty()),
{
    reveal_strlit("/* SPDX-License-Identifier: BSD-3-Clause */");
    reveal_strlit("/* Copyright (c) 2025-2026 Kevin Barnard and minix.rs Contributors */");
    reveal_strlit("/*");
    reveal_strlit(" * GENERATED FILE -- DO NOT EDIT.");
    reveal_strlit(" *");
    let t = Seq::<char>::empty();
    let a = builder::line(t, "/* SPDX-License-Identifier: BSD-3-Clause */"@);
    let b = builder::line(
        a,
        "/* Copyright (c) 2025-2026 Kevin Barnard and minix.rs Contributors */"@,
    );
    let c = builder::line(b, "/*"@);
    let d = builder::line(c, " * GENERATED FILE -- DO NOT EDIT."@);
    lemma_text(t, "/* SPDX-License-Identifier: BSD-3-Clause */"@);
    lemma_text(a, "/* Copyright (c) 2025-2026 Kevin Barnard and minix.rs Contributors */"@);
    lemma_text(b, "/*"@);
    lemma_text(c, " * GENERATED FILE -- DO NOT EDIT."@);
    lemma_text(d, " *"@);
    lemma_adds_none(t, a, b, Seq::empty());
    lemma_adds_none(t, b, c, Seq::empty());
    lemma_adds_none(t, c, d, Seq::empty());
    lemma_adds_none(t, d, builder::banner_head(), Seq::empty());
}

/// The end of the banner adds no row.
proof fn lemma_banner_tail(t: Seq<char>)
    requires
        macros::whole_lines(t),
    ensures
        adds(t, builder::banner_tail(t), Seq::empty()),
{
    reveal_strlit(" * Regenerate with `cargo gen-c-headers`.");
    reveal_strlit(" *");
    reveal_strlit(" * A build artifact, deliberately never committed (phase-5 decision D8):");
    reveal_strlit(" * the Rust constants are the single source of truth, so drift is");
    reveal_strlit(" * impossible by construction rather than caught by a test.");
    reveal_strlit(" */");
    let a = builder::line(t, " * Regenerate with `cargo gen-c-headers`."@);
    let b = builder::line(a, " *"@);
    let c = builder::line(
        b,
        " * A build artifact, deliberately never committed (phase-5 decision D8):"@,
    );
    let d = builder::line(c, " * the Rust constants are the single source of truth, so drift is"@);
    let e = builder::line(d, " * impossible by construction rather than caught by a test."@);
    lemma_text(t, " * Regenerate with `cargo gen-c-headers`."@);
    lemma_text(a, " *"@);
    lemma_text(b, " * A build artifact, deliberately never committed (phase-5 decision D8):"@);
    lemma_text(c, " * the Rust constants are the single source of truth, so drift is"@);
    lemma_text(d, " * impossible by construction rather than caught by a test."@);
    lemma_text(e, " */"@);
    lemma_adds_none(t, a, b, Seq::empty());
    lemma_adds_none(t, b, c, Seq::empty());
    lemma_adds_none(t, c, d, Seq::empty());
    lemma_adds_none(t, d, e, Seq::empty());
    lemma_adds_none(t, e, builder::banner_tail(t), Seq::empty());
}

/// The banner is whole lines that define nothing.
pub proof fn lemma_banner(title: Seq<char>, sources: Seq<&str>)
    requires
        one_line(title),
        forall|i: int| 0 <= i < sources.len() ==> one_line((#[trigger] sources[i])@),
    ensures
        macros::whole_lines(builder::banner(title, sources)),
        macros::macros(builder::banner(title, sources)) == Seq::<Row>::empty(),
{
    reveal_strlit(" * ");
    reveal_strlit(" *");
    reveal_strlit(" * Produced by tools/gen-c-headers from the live constants in the");
    reveal_strlit(" * minixrs-kernel-shared crate:");
    let z = Seq::<char>::empty();
    let t = builder::banner_head();
    let a = builder::line(t, " * "@ + title);
    let b = builder::line(a, " *"@);
    let c = builder::line(
        b,
        " * Produced by tools/gen-c-headers from the live constants in the"@,
    );
    let d = builder::line(c, " * minixrs-kernel-shared crate:"@);
    let e = builder::source_lines(d, sources, sources.len() as int);
    lemma_banner_head();
    lemma_text(t, " * "@ + title);
    lemma_text(a, " *"@);
    lemma_text(b, " * Produced by tools/gen-c-headers from the live constants in the"@);
    lemma_text(c, " * minixrs-kernel-shared crate:"@);
    lemma_source_lines(d, sources, sources.len() as int);
    lemma_banner_tail(e);
    lemma_adds_none(z, t, a, Seq::empty());
    lemma_adds_none(z, a, b, Seq::empty());
    lemma_adds_none(z, b, c, Seq::empty());
    lemma_adds_none(z, c, d, Seq::empty());
    lemma_adds_none(z, d, e, Seq::empty());
    lemma_adds_none(z, e, builder::banner(title, sources), Seq::empty());
    assert(macros::lines_from(z, 0) =~= Seq::<Seq<char>>::empty());
    assert(macros::macros(z) =~= Seq::<Row>::empty());
    assert(Seq::<Row>::empty() + Seq::<Row>::empty() =~= Seq::<Row>::empty());
}

/// A line that defines a function-like macro, written out, adds no row: its name has a
/// parenthesis ahead of any white space.
pub proof fn lemma_function_text(t: Seq<char>, s: Seq<char>, at: int)
    requires
        macros::whole_lines(t),
        one_line(s),
        8 <= at < s.len(),
        s[at] == '(',
        forall|i: int| 8 <= i < at ==> !text::is_space(#[trigger] s[i]),
    ensures
        adds(t, builder::line(t, s), Seq::empty()),
{
    let rest = s.skip(8);
    macros::lemma_space_from(rest, 0);
    let k = macros::space_from(rest, 0);
    assert(forall|i: int| 0 <= i < rest.len() ==> rest[i] == s[i + 8]);
    assert(k > at - 8) by {
        if k < at - 8 {
            assert(!text::is_space(s[k + 8]));
        }
    }
    assert(rest.take(k)[at - 8] == '(');
    lemma_line(t, s);
}

/// An endpoint adds its row.
pub proof fn lemma_ep(t: Seq<char>, name: Seq<char>, v: int)
    requires
        macros::whole_lines(t),
        macros::plain_name(name),
    ensures
        adds(t, builder::define_ep(t, name, v), seq![(name, builder::ep_value(v))]),
{
    reveal_strlit("\n");
    macros::law_numbers_read_back(t, name, v);
    assert(builder::define_ep(t, name, v).last() == '\n');
    let row = (name, builder::ep_value(v));
    assert(macros::macros(t).push(row) =~= macros::macros(t) + seq![row]);
}

/// A value taken verbatim adds its row.
pub proof fn lemma_raw(t: Seq<char>, name: Seq<char>, value: Seq<char>)
    requires
        macros::whole_lines(t),
        macros::plain_name(name),
        macros::plain_value(value),
    ensures
        adds(t, builder::define_raw(t, name, value), seq![(name, value)]),
{
    macros::law_define_reads_back(t, name, value);
    let row = (name, value);
    assert(macros::macros(t).push(row) =~= macros::macros(t) + seq![row]);
}

/// A decimal number stays on one line.
pub proof fn lemma_decimal_line(n: int)
    ensures
        one_line(text::decimal(n)),
{
    macros::lemma_numeral_plain(
        (if n < 0 {
            -n
        } else {
            n
        }) as nat,
        10,
    );
    let s = text::decimal(n);
    assert forall|i: int| 0 <= i < s.len() implies #[trigger] s[i] != '\n' && s[i] != '\r' by {
        if n < 0 && i > 0 {
            assert(!text::is_space(text::numeral((-n) as nat, 10)[i - 1]));
        } else if n >= 0 {
            assert(!text::is_space(text::numeral(n as nat, 10)[i]));
        }
    }
}

/// No two rows share a name.
pub open spec fn distinct(r: Seq<Row>) -> bool {
    forall|i: int, j: int| 0 <= i < j < r.len() ==> (#[trigger] r[i]).0 != (#[trigger] r[j]).0
}

/// A search for the name of row `k` passes those ahead of it.
pub proof fn lemma_found(r: Seq<Row>, k: int, i: int)
    requires
        distinct(r),
        0 <= i <= k < r.len(),
    ensures
        macros::value_from(r, r[k].0, i) == Some(r[k].1),
    decreases k - i,
{
    if i < k {
        assert(r[i].0 != r[k].0);
        lemma_found(r, k, i + 1);
    }
}

} // verus!
