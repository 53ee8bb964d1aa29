//! Reading the macros of a rendered file back.
use vstd::prelude::*;
use vstd::string::*;
use crate::headers::builder;
use crate::text;

verus! {

/// Where the line that starts at `i` ends: at the next newline, or at the end.
pub open spec fn line_end(t: Seq<char>, i: int) -> int
    decreases t.len() - i,
{
    if i >= t.len() || t[i] == '\n' {
        i
    } else {
        line_end(t, i + 1)
    }
}

/// A line ends no earlier than it starts, and inside the text.
pub proof fn lemma_line_end(t: Seq<char>, i: int)
    requires
        0 <= i <= t.len(),
    ensures
        i <= line_end(t, i) <= t.len(),
        line_end(t, i) < t.len() ==> t[line_end(t, i)] == '\n',
        forall|k: int| i <= k < line_end(t, i) ==> t[k] != '\n',
    decreases t.len() - i,
{
    if i < t.len() && t[i] != '\n' {
        lemma_line_end(t, i + 1);
    }
}

/// Where the content of a line ends whose terminator is at `j`: a carriage return
/// right before a newline belongs to the terminator.
pub open spec fn content_end(t: Seq<char>, i: int, j: int) -> int {
    if j < t.len() && j > i && t[j - 1] == '\r' {
        j - 1
    } else {
        j
    }
}

/// The lines of a text from `i` on.
pub open spec fn lines_from(t: Seq<char>, i: int) -> Seq<Seq<char>>
    decreases t.len() + 1 - i,
{
    if i < 0 || i >= t.len() {
        Seq::empty()
    } else {
        proof {
            lemma_line_end(t, i);
        }
        let j = line_end(t, i);
        seq![t.subrange(i, content_end(t, i, j))] + lines_from(t, j + 1)
    }
}

/// The first white space at or after `i`, or the end.
pub open spec fn space_from(s: Seq<char>, i: int) -> int
    decreases s.len() - i,
{
    if i >= s.len() || text::is_space(s[i]) {
        i
    } else {
        space_from(s, i + 1)
    }
}

/// The first character at or after `i` that is not white space, or the end.
pub open spec fn text_from(s: Seq<char>, i: int) -> int
    decreases s.len() - i,
{
    if i < s.len() && text::is_space(s[i]) {
        text_from(s, i + 1)
    } else {
        i
    }
}

/// The end of the text before `j` that does not end in white space, no earlier
/// than `i`.
pub open spec fn text_to(s: Seq<char>, i: int, j: int) -> int
    decreases j - i,
{
    if j > i && text::is_space(s[j - 1]) {
        text_to(s, i, j - 1)
    } else {
        j
    }
}

/// `s` without the white space around it.
pub open spec fn trimmed(s: Seq<char>) -> Seq<char> {
    let i = text_from(s, 0);
    s.subrange(i, text_to(s, i, s.len() as int))
}

/// The name and the value of the macro a line defines. A line that does not start
/// with `#define `, has no value column, or defines a function-like macro has
/// none.
pub open spec fn macro_of(l: Seq<char>) -> Option<(Seq<char>, Seq<char>)> {
    let head = "#define "@;
    let rest = l.skip(8);
    let k = space_from(rest, 0);
    if l.len() < 8 || l.take(8) != head || k >= rest.len() || rest.take(k).contains('(') {
        None
    } else {
        Some((rest.take(k), trimmed(rest.skip(k + 1))))
    }
}

/// The macros of the first `n` lines, in order.
pub open spec fn macros_to(lines: Seq<Seq<char>>, n: int) -> Seq<(Seq<char>, Seq<char>)>
    decreases n,
{
    if n <= 0 {
        Seq::empty()
    } else {
        match macro_of(lines[n - 1]) {
            Some(m) => macros_to(lines, n - 1).push(m),
            None => macros_to(lines, n - 1),
        }
    }
}

/// The macros a text defines, in order.
pub open spec fn macros(t: Seq<char>) -> Seq<(Seq<char>, Seq<char>)> {
    let lines = lines_from(t, 0);
    macros_to(lines, lines.len() as int)
}

/// What a list of name and value strings says.
pub open spec fn pairs(v: Seq<(String, String)>) -> Seq<(Seq<char>, Seq<char>)> {
    Seq::new(v.len(), |i: int| (v[i].0@, v[i].1@))
}

/// The value of the first macro from `i` on with this name.
pub open spec fn value_from(ms: Seq<(Seq<char>, Seq<char>)>, name: Seq<char>, i: int) -> Option<
    Seq<char>,
>
    decreases ms.len() - i,
{
    if i >= ms.len() {
        None
    } else if ms[i].0 == name {
        Some(ms[i].1)
    } else {
        value_from(ms, name, i + 1)
    }
}

/// A search that does not leave its text.
pub proof fn lemma_space_from(s: Seq<char>, i: int)
    requires
        0 <= i <= s.len(),
    ensures
        i <= space_from(s, i) <= s.len(),
        forall|k: int| i <= k < space_from(s, i) ==> !text::is_space(s[k]),
        space_from(s, i) < s.len() ==> text::is_space(s[space_from(s, i)]),
    decreases s.len() - i,
{
    if i < s.len() && !text::is_space(s[i]) {
        lemma_space_from(s, i + 1);
    }
}

/// Whether `v[a..b]` starts with `#define `.
fn is_define(v: &Vec<char>, a: usize, b: usize) -> (r: bool)
    requires
        a <= b <= v@.len(),
    ensures
        r == ({
            let l = v@.subrange(a as int, b as int);
            l.len() >= 8 && l.take(8) == "#define "@
        }),
{
    let head = text::chars("#define ");
    proof {
        reveal_strlit("#define ");
    }
    let ghost l = v@.subrange(a as int, b as int);
    if b - a < 8 {
        return false;
    }
    let mut i: usize = 0;
    while i < 8
        invariant
            i <= 8,
            a + 8 <= b <= v@.len(),
            head@ == "#define "@,
            head@.len() == 8,
            l == v@.subrange(a as int, b as int),
            forall|k: int| 0 <= k < i ==> l[k] == head@[k],
        decreases 8 - i,
    {
        if v[a + i] != head[i] {
            assert(l.take(8)[i as int] != head@[i as int]);
            return false;
        }
        assert(l[i as int] == head@[i as int]);
        i = i + 1;
    }
    assert(l.take(8) =~= head@);
    true
}

/// The macro that line `v[a..b]` defines.
fn parse_line(v: &Vec<char>, a: usize, b: usize) -> (r: Option<(String, String)>)
    requires
        a <= b <= v@.len(),
    ensures
        match r {
            Some((n, x)) => macro_of(v@.subrange(a as int, b as int)) == Some((n@, x@)),
            None => macro_of(v@.subrange(a as int, b as int)) is None,
        },
{
    let ghost l = v@.subrange(a as int, b as int);
    let ghost rest = l.skip(8);
    if !is_define(v, a, b) {
        return None;
    }
    let s: usize = a + 8;
    assert(forall|x: int| 0 <= x < rest.len() ==> rest[x] == v@[s + x]);
    let mut k: usize = s;
    let mut paren: bool = false;
    while k < b && !text::is_whitespace(v[k])
        invariant
            s <= k <= b <= v@.len(),
            rest.len() == b - s,
            forall|x: int| 0 <= x < rest.len() ==> rest[x] == v@[s + x],
            space_from(rest, 0) == space_from(rest, k - s),
            paren == exists|x: int| 0 <= x < k - s && rest[x] == '(',
        decreases b - k,
    {
        if v[k] == '(' {
            assert(rest[k - s] == '(');
            paren = true;
        }
        k = k + 1;
    }
    assert(space_from(rest, 0) == k - s);
    let ghost kk = k - s;
    assert(rest.take(kk).contains('(') == paren) by {
        if paren {
            let x = choose|x: int| 0 <= x < kk && rest[x] == '(';
            assert(rest.take(kk)[x] == '(');
        }
        if rest.take(kk).contains('(') {
            let x = choose|x: int| 0 <= x < rest.take(kk).len() && rest.take(kk)[x] == '(';
            assert(rest[x] == '(');
        }
    }
    if k >= b || paren {
        return None;
    }
    let ghost val = rest.skip(kk + 1);
    let vs: usize = k + 1;
    assert(forall|x: int| 0 <= x < val.len() ==> val[x] == v@[vs + x]);
    let mut i: usize = vs;
    while i < b && text::is_whitespace(v[i])
        invariant
            vs <= i <= b <= v@.len(),
            val.len() == b - vs,
            forall|x: int| 0 <= x < val.len() ==> val[x] == v@[vs + x],
            text_from(val, 0) == text_from(val, i - vs),
        decreases b - i,
    {
        i = i + 1;
    }
    assert(text_from(val, 0) == i - vs);
    let mut j: usize = b;
    while j > i && text::is_whitespace(v[j - 1])
        invariant
            vs <= i <= j <= b <= v@.len(),
            val.len() == b - vs,
            forall|x: int| 0 <= x < val.len() ==> val[x] == v@[vs + x],
            text_to(val, i - vs, val.len() as int) == text_to(val, i - vs, j - vs),
        decreases j - i,
    {
        j = j - 1;
    }
    assert(text_to(val, i - vs, val.len() as int) == j - vs);
    let name = text::string_of(v, s, k);
    let value = text::string_of(v, i, j);
    assert(name@ =~= rest.take(kk));
    assert(value@ =~= trimmed(val));
    Some((name, value))
}

/// Parse the `#define NAME value` lines out of a rendered file.
///
/// Object-like macros only: a function-like `#define NAME(args) ...` has no value
/// column to report, so it is skipped.
pub fn defines(text: &str) -> (r: Vec<(String, String)>)
    ensures
        pairs(r@) == macros(text@),
{
    let v = text::chars(text);
    let ghost lines = lines_from(v@, 0);
    let ghost mut n: int = 0;
    let mut r: Vec<(String, String)> = Vec::new();
    let mut i: usize = 0;
    assert(pairs(r@) =~= macros_to(lines, 0));
    assert(lines.skip(0) =~= lines);
    while i < v.len()
        invariant
            i <= v@.len(),
            lines == lines_from(v@, 0),
            0 <= n <= lines.len(),
            lines.skip(n) == lines_from(v@, i as int),
            pairs(r@) == macros_to(lines, n),
        decreases v@.len() - i,
    {
        let start: usize = i;
        proof {
            lemma_line_end(v@, start as int);
        }
        let mut j: usize = i;
        while j < v.len() && v[j] != '\n'
            invariant
                start <= j <= v@.len(),
                line_end(v@, start as int) == line_end(v@, j as int),
            decreases v@.len() - j,
        {
            j = j + 1;
        }
        let e: usize = if j < v.len() && j > start && v[j - 1] == '\r' {
            j - 1
        } else {
            j
        };
        let ghost l = v@.subrange(start as int, e as int);
        let ghost rest = lines_from(v@, j + 1);
        proof {
            assert(lines.skip(n) == seq![l] + rest);
            assert(lines[n] == lines.skip(n)[0]);
            assert(lines.skip(n + 1) =~= lines.skip(n).skip(1));
            assert((seq![l] + rest).skip(1) =~= rest);
        }
        let ghost before = r@;
        match parse_line(&v, start, e) {
            Some(m) => {
                r.push(m);
                assert(pairs(r@) =~= pairs(before).push((m.0@, m.1@)));
            },
            None => {},
        }
        if j < v.len() {
            i = j + 1;
        } else {
            i = j;
            assert(rest =~= lines_from(v@, j as int));
        }
        proof {
            n = n + 1;
        }
    }
    assert(lines.skip(n).len() == 0);
    r
}

/// The value of one object-like macro, or `None` if it is absent.
pub fn define_value(text: &str, name: &str) -> (r: Option<String>)
    ensures
        match r {
            Some(s) => value_from(macros(text@), name@, 0) == Some(s@),
            None => value_from(macros(text@), name@, 0) is None,
        },
{
    let ms = defines(text);
    let wanted: String = name.to_owned();
    let ghost all = pairs(ms@);
    let mut i: usize = 0;
    while i < ms.len()
        invariant
            i <= ms@.len(),
            all == pairs(ms@),
            all == macros(text@),
            wanted@ == name@,
            value_from(all, name@, 0) == value_from(all, name@, i as int),
        decreases ms@.len() - i,
    {
        assert(all[i as int] == (ms@[i as int].0@, ms@[i as int].1@));
        if ms[i].0 == wanted {
            return Some(ms[i].1.clone());
        }
        i = i + 1;
    }
    None
}

/// A text of whole lines: empty, or ending in a newline.
pub open spec fn whole_lines(t: Seq<char>) -> bool {
    t.len() == 0 || t.last() == '\n'
}

/// Appending to a text of whole lines leaves the lines it has.
proof fn lemma_lines_append(t: Seq<char>, s: Seq<char>, i: int)
    requires
        whole_lines(t),
        0 <= i <= t.len(),
    ensures
        lines_from(t + s, i) == lines_from(t, i) + lines_from(t + s, t.len() as int),
    decreases t.len() - i,
{
    let all = t + s;
    if i == t.len() {
        assert(lines_from(t, i) =~= Seq::<Seq<char>>::empty());
        assert(lines_from(t, i) + lines_from(all, i) =~= lines_from(all, i));
    } else {
        lemma_line_end(t, i);
        lemma_same_line_end(t, s, i);
        let j = line_end(t, i);
        assert(j < t.len());
        lemma_lines_append(t, s, j + 1);
        let e = content_end(t, i, j);
        assert(content_end(all, i, j) == e);
        assert(all.subrange(i, e) =~= t.subrange(i, e));
        let l = seq![t.subrange(i, e)];
        assert(l + (lines_from(t, j + 1) + lines_from(all, t.len() as int)) =~= (l + lines_from(
            t,
            j + 1,
        )) + lines_from(all, t.len() as int));
    }
}

/// A line that ends in a newline ends there whatever follows.
proof fn lemma_same_line_end(t: Seq<char>, s: Seq<char>, i: int)
    requires
        whole_lines(t),
        0 <= i < t.len(),
    ensures
        line_end(t + s, i) == line_end(t, i),
        line_end(t, i) < t.len(),
    decreases t.len() - i,
{
    if t[i] != '\n' {
        assert(i + 1 < t.len());
        lemma_same_line_end(t, s, i + 1);
    }
}

/// One more line is one more line: what follows a text of whole lines is read as
/// the line it was written as.
pub proof fn law_line_reads_back(t: Seq<char>, s: Seq<char>)
    requires
        whole_lines(t),
        !s.contains('\n'),
        s.len() == 0 || s.last() != '\r',
    ensures
        lines_from(builder::line(t, s), 0) == lines_from(t, 0).push(s),
        whole_lines(builder::line(t, s)),
        macros(builder::line(t, s)) == (match macro_of(s) {
            Some(m) => macros(t).push(m),
            None => macros(t),
        }),
{
    reveal_strlit("\n");
    let nl = "\n"@;
    assert(nl =~= seq!['\n']);
    let all = builder::line(t, s);
    assert(all =~= t + (s + nl));
    lemma_lines_append(t, s + nl, 0);
    let n = t.len() as int;
    let j = n + s.len();
    assert(all[j] == '\n');
    assert forall|k: int| n <= k < j implies all[k] != '\n' by {
        assert(all[k] == s[k - n]);
        assert(s.contains(s[k - n]));
    }
    lemma_line_end(all, n);
    assert(line_end(all, n) == j);
    assert(j > n ==> all[j - 1] == s.last());
    assert(content_end(all, n, j) == j);
    assert(all.subrange(n, j) =~= s);
    assert(lines_from(all, j + 1) =~= Seq::<Seq<char>>::empty());
    assert(lines_from(all, n) =~= seq![s]);
    let before = lines_from(t, 0);
    assert(before + seq![s] =~= before.push(s));
    lemma_macros_prefix(before, before.push(s), before.len() as int);
}

/// The macros of a prefix of the lines.
proof fn lemma_macros_prefix(a: Seq<Seq<char>>, b: Seq<Seq<char>>, n: int)
    requires
        0 <= n <= a.len() <= b.len(),
        forall|i: int| 0 <= i < a.len() ==> a[i] == b[i],
    ensures
        macros_to(a, n) == macros_to(b, n),
    decreases n,
{
    if n > 0 {
        lemma_macros_prefix(a, b, n - 1);
    }
}

/// A macro name: not empty, without white space and without a parenthesis.
pub open spec fn plain_name(name: Seq<char>) -> bool {
    &&& name.len() > 0
    &&& forall|i: int| 0 <= i < name.len() ==> !text::is_space(#[trigger] name[i]) && name[i] != '('
}

/// A value on one line with no white space around it.
pub open spec fn plain_value(value: Seq<char>) -> bool {
    &&& !value.contains('\n')
    &&& value.len() > 0 ==> !text::is_space(value[0]) && !text::is_space(value.last())
}

/// A macro that was written is read back: its name and its value, after all the
/// macros the text had before.
pub proof fn law_define_reads_back(t: Seq<char>, name: Seq<char>, value: Seq<char>)
    requires
        whole_lines(t),
        plain_name(name),
        plain_value(value),
    ensures
        macros(builder::define_raw(t, name, value)) == macros(t).push((name, value)),
        whole_lines(builder::define_raw(t, name, value)),
{
    reveal_strlit("#define ");
    reveal_strlit(" ");
    let head = "#define "@;
    let pad = builder::padded(name, builder::DEFINE_WIDTH as int);
    let k = name.len() as int;
    let gap = pad.len() - k + 1;
    let s = head + pad + " "@ + value;
    let rest = s.skip(8);
    assert(s.take(8) =~= head);
    assert forall|i: int| 0 <= i < rest.len() implies rest[i] == (if i < k {
        name[i]
    } else if i < k + gap {
        ' '
    } else {
        value[i - k - gap]
    }) by {}
    lemma_space_from(rest, 0);
    assert(space_from(rest, 0) == k) by {
        let x = space_from(rest, 0);
        if x < k {
            assert(!text::is_space(name[x]));
        }
        if x > k {
            assert(text::is_space(rest[k]));
        }
    }
    assert(rest.take(k) =~= name);
    assert(!name.contains('('));
    let val = rest.skip(k + 1);
    assert(val.len() == gap - 1 + value.len());
    lemma_trim(val, value, gap - 1);
    assert(macro_of(s) == Some((name, value)));
    assert(!s.contains('\n')) by {
        if s.contains('\n') {
            let i = choose|i: int| 0 <= i < s.len() && s[i] == '\n';
            if i >= 8 {
                assert(rest[i - 8] == '\n');
                let x = i - 8;
                if x < k {
                    assert(!text::is_space(name[x]));
                } else if x >= k + gap {
                    assert(value[x - k - gap] == '\n');
                    assert(value.contains('\n'));
                }
            }
        }
    }
    assert(s.last() != '\r') by {
        if value.len() > 0 {
            assert(s.last() == value.last());
        } else {
            assert(s.last() == ' ');
        }
    }
    law_line_reads_back(t, s);
}

/// A numeral is made of digits, none of them white space or a newline, and there
/// is at least one.
pub proof fn lemma_numeral_plain(n: nat, base: nat)
    requires
        2 <= base <= 16,
    ensures
        text::numeral(n, base).len() > 0,
        forall|i: int|
            0 <= i < text::numeral(n, base).len() ==> {
                let c = #[trigger] text::numeral(n, base)[i];
                !text::is_space(c) && c != '\n' && c != '-' && c != '('
            },
    decreases n,
{
    if n >= base {
        text::lemma_quotient_shrinks(n, base);
        lemma_numeral_plain(n / base, base);
        assert(n % base < base) by (nonlinear_arith)
            requires
                base >= 2,
        ;
    }
}

/// Different numbers have different numerals.
proof fn lemma_numeral_distinct(n: nat, m: nat, base: nat)
    requires
        2 <= base <= 16,
        text::numeral(n, base) == text::numeral(m, base),
    ensures
        n == m,
    decreases n,
{
    let a = text::numeral(n, base);
    let b = text::numeral(m, base);
    assert(n % base < base && m % base < base) by (nonlinear_arith)
        requires
            base >= 2,
    ;
    if n >= base {
        lemma_numeral_plain(n / base, base);
    }
    if m >= base {
        lemma_numeral_plain(m / base, base);
    }
    assert(a.last() == b.last());
    if n >= base && m >= base {
        text::lemma_quotient_shrinks(n, base);
        assert(a.drop_last() =~= text::numeral(n / base, base));
        assert(b.drop_last() =~= text::numeral(m / base, base));
        lemma_numeral_distinct(n / base, m / base, base);
        assert(n == base * (n / base) + n % base && m == base * (m / base) + m % base)
            by (nonlinear_arith)
            requires
                base >= 2,
        ;
    }
}

/// A number that was written as a macro is read back: as a decimal, in
/// hexadecimal when it is not negative, and as an endpoint.
pub proof fn law_numbers_read_back(t: Seq<char>, name: Seq<char>, v: int)
    requires
        whole_lines(t),
        plain_name(name),
    ensures
        macros(builder::define_dec(t, name, v)) == macros(t).push((name, builder::dec_value(v))),
        v >= 0 ==> macros(builder::define_hex(t, name, v)) == macros(t).push(
            (name, builder::hex_value(v)),
        ),
        macros(builder::define_ep(t, name, v)) == macros(t).push((name, builder::ep_value(v))),
{
    reveal_strlit("(");
    reveal_strlit(")");
    reveal_strlit("0x");
    reveal_strlit("((endpoint_t) ");
    lemma_numeral_plain(
        (if v < 0 {
            -v
        } else {
            v
        }) as nat,
        10,
    );
    let dec = builder::dec_value(v);
    assert(plain_value(dec)) by {
        assert forall|i: int| 0 <= i < dec.len() implies dec[i] != '\n' by {}
    }
    law_define_reads_back(t, name, dec);
    let ep = builder::ep_value(v);
    assert(plain_value(ep)) by {
        assert forall|i: int| 0 <= i < ep.len() implies ep[i] != '\n' by {}
    }
    law_define_reads_back(t, name, ep);
    if v >= 0 {
        lemma_numeral_plain(v as nat, 16);
        let hex = builder::hex_value(v);
        assert(plain_value(hex)) by {
            assert forall|i: int| 0 <= i < hex.len() implies hex[i] != '\n' by {}
        }
        law_define_reads_back(t, name, hex);
    }
}

/// The values of macros tell the numbers they stand for apart.
pub proof fn law_values_are_distinct(v: int, w: int)
    requires
        v != w,
    ensures
        builder::dec_value(v) != builder::dec_value(w),
        v >= 0 && w >= 0 ==> builder::hex_value(v) != builder::hex_value(w),
        builder::ep_value(v) != builder::ep_value(w),
{
    reveal_strlit("(");
    reveal_strlit(")");
    reveal_strlit("0x");
    reveal_strlit("((endpoint_t) ");
    assert(text::decimal(v) != text::decimal(w)) by {
        if text::decimal(v) == text::decimal(w) {
            lemma_decimal_distinct(v, w);
        }
    }
    let dv = builder::dec_value(v);
    let dw = builder::dec_value(w);
    if dv == dw {
        lemma_numeral_plain(v as nat, 10);
        lemma_numeral_plain(w as nat, 10);
        assert((v < 0) == (w < 0)) by {
            assert(v < 0 ==> dv[0] == '(');
            assert(w < 0 ==> dw[0] == '(');
        }
        if v < 0 {
            assert(dv.subrange(1, dv.len() - 1) =~= text::decimal(v));
            assert(dw.subrange(1, dw.len() - 1) =~= text::decimal(w));
        }
    }
    let ev = builder::ep_value(v);
    let ew = builder::ep_value(w);
    if ev == ew {
        assert(ev.subrange(14, ev.len() - 1) =~= text::decimal(v));
        assert(ew.subrange(14, ew.len() - 1) =~= text::decimal(w));
    }
    if v >= 0 && w >= 0 && builder::hex_value(v) == builder::hex_value(w) {
        assert(builder::hex_value(v).skip(2) =~= text::numeral(v as nat, 16));
        assert(builder::hex_value(w).skip(2) =~= text::numeral(w as nat, 16));
        lemma_numeral_distinct(v as nat, w as nat, 16);
    }
}

/// Different numbers are written differently.
proof fn lemma_decimal_distinct(v: int, w: int)
    requires
        text::decimal(v) == text::decimal(w),
    ensures
        v == w,
{
    let a = text::decimal(v);
    let b = text::decimal(w);
    lemma_numeral_plain(v as nat, 10);
    lemma_numeral_plain(w as nat, 10);
    assert((v < 0) == (w < 0)) by {
        assert(v < 0 ==> a[0] == '-');
        assert(w < 0 ==> b[0] == '-');
    }
    if v < 0 {
        assert(a.skip(1) =~= text::numeral((-v) as nat, 10));
        assert(b.skip(1) =~= text::numeral((-w) as nat, 10));
        lemma_numeral_distinct((-v) as nat, (-w) as nat, 10);
    } else {
        lemma_numeral_distinct(v as nat, w as nat, 10);
    }
}

/// Trimming spaces before a value leaves the value.
proof fn lemma_trim(val: Seq<char>, value: Seq<char>, n: int)
    requires
        0 <= n,
        val.len() == n + value.len(),
        forall|i: int| 0 <= i < n ==> val[i] == ' ',
        forall|i: int| n <= i < val.len() ==> val[i] == value[i - n],
        value.len() > 0 ==> !text::is_space(value[0]) && !text::is_space(value.last()),
    ensures
        trimmed(val) == value,
{
    lemma_skip_spaces(val, n, 0);
    assert(text_from(val, 0) == n);
    if value.len() > 0 {
        assert(val[val.len() - 1] == value.last());
    }
    assert(text_to(val, n, val.len() as int) == val.len());
    assert(val.subrange(n, val.len() as int) =~= value);
}

/// Skipping white space stops at the first character that is none.
proof fn lemma_skip_spaces(s: Seq<char>, n: int, i: int)
    requires
        0 <= i <= n <= s.len(),
        forall|k: int| 0 <= k < n ==> s[k] == ' ',
        n < s.len() ==> !text::is_space(s[n]),
    ensures
        text_from(s, i) == n,
    decreases n - i,
{
    if i < n {
        assert(text::is_space(s[i]));
        lemma_skip_spaces(s, n, i + 1);
    }
}

/// What a macro value says is the number it was written for: its digits read back to the
/// magnitude, a minus sign stands before them exactly when it is negative, and then
/// parentheses around both; hexadecimal follows `0x`; an endpoint is a cast of the number.
pub proof fn law_values_denote_their_numbers(v: int)
    ensures
        v >= 0 ==> text::digits_value(builder::dec_value(v), 10) == v,
        v < 0 ==> {
            let s = builder::dec_value(v);
            &&& s[0] == '(' && s[1] == '-' && s.last() == ')'
            &&& text::digits_value(s.subrange(2, s.len() - 1), 10) == -v
        },
        v >= 0 ==> {
            let s = builder::hex_value(v);
            &&& s[0] == '0' && s[1] == 'x'
            &&& text::digits_value(s.skip(2), 16) == v
        },
        builder::ep_value(v).take(14) == "((endpoint_t) "@,
        builder::ep_value(v).skip(14).drop_last() == text::decimal(v),
        builder::ep_value(v).last() == ')',
{
    reveal_strlit("(");
    reveal_strlit(")");
    reveal_strlit("0x");
    reveal_strlit("((endpoint_t) ");
    text::law_decimal_reads_back(v);
    if v < 0 {
        let s = builder::dec_value(v);
        assert(text::decimal(v).len() > 0) by {
            text::law_numeral_reads_back((-v) as nat, 10);
        }
        assert(s[1] == text::decimal(v)[0]);
        assert(s.subrange(2, s.len() - 1) =~= text::decimal(v).skip(1));
    } else {
        text::law_numeral_reads_back(v as nat, 16);
        assert(builder::hex_value(v).skip(2) =~= text::numeral(v as nat, 16));
    }
    assert(builder::ep_value(v).take(14) =~= "((endpoint_t) "@);
    assert(builder::ep_value(v).skip(14).drop_last() =~= text::decimal(v));
}

} // verus!
