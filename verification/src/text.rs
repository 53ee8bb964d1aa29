//! Characters and bytes of text.
use vstd::prelude::*;
use vstd::string::*;

verus! {

/// The characters of `s`.
pub fn chars(s: &str) -> (v: Vec<char>)
    ensures
        v@ == s@,
{
    let mut v: Vec<char> = Vec::new();
    for c in it: s.chars()
        invariant
            v@ == it.seq().take(it.index()),
            it.seq() == s@,
    {
        v.push(c);
        assert(it.seq().take(it.index() + 1) =~= it.seq().take(it.index()).push(c));
    }
    assert(s@.take(s@.len() as int) =~= s@);
    v
}

/// Where the component that starts at `i` ends: at the next slash, or at the end.
pub open spec fn end_of(p: Seq<char>, i: int) -> int
    decreases p.len() - i,
{
    if i >= p.len() || p[i] == '/' {
        i
    } else {
        end_of(p, i + 1)
    }
}

/// A component ends no earlier than it starts, and inside the path.
pub proof fn lemma_end_of(p: Seq<char>, i: int)
    requires
        0 <= i <= p.len(),
    ensures
        i <= end_of(p, i) <= p.len(),
        i < p.len() && p[i] != '/' ==> i < end_of(p, i),
        end_of(p, i) < p.len() ==> p[end_of(p, i)] == '/',
        forall|j: int| i <= j < end_of(p, i) ==> p[j] != '/',
    decreases p.len() - i,
{
    if i < p.len() && p[i] != '/' {
        lemma_end_of(p, i + 1);
    }
}

/// Whether two byte slices hold the same bytes.
pub fn bytes_eq(a: &[u8], b: &[u8]) -> (r: bool)
    ensures
        r == (a@ == b@),
{
    if a.len() != b.len() {
        return false;
    }
    let mut i: usize = 0;
    while i < a.len()
        invariant
            i <= a@.len(),
            a@.len() == b@.len(),
            forall|j: int| 0 <= j < i ==> a@[j] == b@[j],
        decreases a@.len() - i,
    {
        if a[i] != b[i] {
            assert(a@[i as int] != b@[i as int]);
            return false;
        }
        i = i + 1;
    }
    assert(a@ =~= b@);
    true
}

/// The bytes of `field` before its first NUL, or all of them.
pub open spec fn until_nul(field: Seq<u8>) -> Seq<u8>
    decreases field.len(),
{
    if field.len() == 0 || field[0] == 0 {
        Seq::empty()
    } else {
        seq![field[0]] + until_nul(field.skip(1))
    }
}

/// How many bytes come before the first NUL.
pub fn nul_len(field: &[u8]) -> (n: usize)
    ensures
        n <= field@.len(),
        until_nul(field@) == field@.take(n as int),
        forall|i: int| 0 <= i < n ==> field@[i] != 0,
        n < field@.len() ==> field@[n as int] == 0,
{
    let mut n: usize = 0;
    while n < field.len() && field[n] != 0
        invariant
            n <= field@.len(),
            forall|i: int| 0 <= i < n ==> field@[i] != 0,
        decreases field@.len() - n,
    {
        n = n + 1;
    }
    proof {
        lemma_until_nul(field@, n as int);
    }
    n
}

/// The bytes before a first NUL at `n` are the first `n`.
pub proof fn lemma_until_nul(field: Seq<u8>, n: int)
    requires
        0 <= n <= field.len(),
        forall|i: int| 0 <= i < n ==> field[i] != 0,
        n < field.len() ==> field[n] == 0,
    ensures
        until_nul(field) == field.take(n),
    decreases n,
{
    if n == 0 {
        assert(field.take(0) =~= Seq::<u8>::empty());
    } else {
        lemma_until_nul(field.skip(1), n - 1);
        assert(seq![field[0]] + field.skip(1).take(n - 1) =~= field.take(n));
    }
}

/// Append the bytes of `s`.
pub fn append_bytes(v: &mut Vec<u8>, s: &[u8])
    ensures
        final(v)@ == old(v)@ + s@,
{
    let mut i: usize = 0;
    while i < s.len()
        invariant
            i <= s@.len(),
            v@ == old(v)@ + s@.take(i as int),
        decreases s@.len() - i,
    {
        v.push(s[i]);
        i = i + 1;
        assert(s@.take(i as int) =~= s@.take(i - 1).push(s@[i - 1]));
        assert(v@ =~= old(v)@ + s@.take(i as int));
    }
    assert(s@.take(i as int) =~= s@);
}

/// `bytes` as text; `None` when they are not UTF-8.
///
/// `core::str::from_utf8` is believed to succeed on exactly the byte sequences
/// that are valid UTF-8, and to return the text those bytes encode.
#[verifier::external_body]
pub(crate) fn from_utf8(bytes: &[u8]) -> (r: Option<&str>)
    ensures
        r is Some <==> vstd::utf8::valid_utf8(bytes@),
        r matches Some(s) ==> s.spec_bytes() == bytes@,
{
    match core::str::from_utf8(bytes) {
        Ok(s) => Some(s),
        Err(_) => None,
    }
}

/// The text some bytes encode; the empty text when they are not UTF-8.
pub open spec fn text_of(bytes: Seq<u8>) -> Seq<char> {
    if vstd::utf8::valid_utf8(bytes) {
        vstd::utf8::decode_utf8(bytes)
    } else {
        Seq::empty()
    }
}

/// `String::push` is believed to append exactly the one character.
pub assume_specification[ String::push ](s: &mut String, c: char)
    ensures
        final(s)@ == old(s)@.push(c),
;

/// The text of characters `from..to`.
pub fn string_of(v: &Vec<char>, from: usize, to: usize) -> (s: String)
    requires
        from <= to <= v@.len(),
    ensures
        s@ == v@.subrange(from as int, to as int),
{
    let mut s = String::new();
    let mut i: usize = from;
    while i < to
        invariant
            from <= i <= to <= v@.len(),
            s@ == v@.subrange(from as int, i as int),
        decreases to - i,
    {
        s.push(v[i]);
        i = i + 1;
        assert(s@ =~= v@.subrange(from as int, i as int));
    }
    s
}

/// The two texts one after the other.
pub fn concat(a: &str, b: &str) -> (s: String)
    ensures
        s@ == a@ + b@,
{
    let mut s: String = a.to_owned();
    s.append(b);
    s
}

/// The three texts one after the other.
pub fn concat3(a: &str, b: &str, c: &str) -> (s: String)
    ensures
        s@ == a@ + b@ + c@,
{
    let mut s = concat(a, b);
    s.append(c);
    s
}

/// The character of a digit: `0` to `9`, then `A` to `F`.
pub open spec fn digit(d: int) -> char {
    if d < 10 {
        (48 + d) as char
    } else {
        (55 + d) as char
    }
}

/// `n` written in base `base`.
pub open spec fn numeral(n: nat, base: nat) -> Seq<char>
    decreases n,
{
    if base < 2 {
        Seq::empty()
    } else if n < base {
        seq![digit(n as int)]
    } else {
        proof {
            lemma_quotient_shrinks(n, base);
        }
        numeral(n / base, base).push(digit((n % base) as int))
    }
}

/// Dividing by two or more makes a number smaller.
pub proof fn lemma_quotient_shrinks(n: nat, base: nat)
    by (nonlinear_arith)
    requires
        base >= 2,
        n >= base,
    ensures
        n / base < n,
{
}

/// `v` in decimal, with a minus sign when it is negative.
pub open spec fn decimal(v: int) -> Seq<char> {
    if v < 0 {
        seq!['-'] + numeral((-v) as nat, 10)
    } else {
        numeral(v as nat, 10)
    }
}

/// The text of one digit.
fn digit_char(d: u64) -> (c: char)
    requires
        d < 16,
    ensures
        c == digit(d as int),
{
    if d == 0 {
        '0'
    } else if d == 1 {
        '1'
    } else if d == 2 {
        '2'
    } else if d == 3 {
        '3'
    } else if d == 4 {
        '4'
    } else if d == 5 {
        '5'
    } else if d == 6 {
        '6'
    } else if d == 7 {
        '7'
    } else if d == 8 {
        '8'
    } else if d == 9 {
        '9'
    } else if d == 10 {
        'A'
    } else if d == 11 {
        'B'
    } else if d == 12 {
        'C'
    } else if d == 13 {
        'D'
    } else if d == 14 {
        'E'
    } else {
        'F'
    }
}

/// Write `n` in base `base`.
pub fn to_base(n: u64, base: u64) -> (s: String)
    requires
        2 <= base <= 16,
    ensures
        s@ == numeral(n as nat, base as nat),
    decreases n,
{
    if n < base {
        let mut s = String::new();
        s.push(digit_char(n));
        assert(s@ =~= seq![digit(n as int)]);
        s
    } else {
        proof {
            lemma_quotient_shrinks(n as nat, base as nat);
        }
        let mut s = to_base(n / base, base);
        s.push(digit_char(n % base));
        s
    }
}

/// Write `v` in decimal.
pub fn to_decimal(v: i64) -> (s: String)
    ensures
        s@ == decimal(v as int),
{
    if v < 0 {
        let mut s = String::new();
        s.push('-');
        let magnitude: u64 = if v == i64::MIN {
            0x8000_0000_0000_0000
        } else {
            (-v) as u64
        };
        let digits = to_base(magnitude, 10);
        s.append(digits.as_str());
        assert(s@ =~= decimal(v as int));
        s
    } else {
        to_base(v as u64, 10)
    }
}

/// The characters Unicode calls white space.
pub open spec fn is_space(c: char) -> bool {
    let v = c as u32;
    9 <= v <= 13 || v == 0x20 || v == 0x85 || v == 0xA0 || v == 0x1680 || 0x2000 <= v <= 0x200A || v
        == 0x2028 || v == 0x2029 || v == 0x202F || v == 0x205F || v == 0x3000
}

/// Whether Unicode calls `c` white space.
pub fn is_whitespace(c: char) -> (r: bool)
    ensures
        r == is_space(c),
{
    let v: u32 = c as u32;
    (9 <= v && v <= 13) || v == 0x20 || v == 0x85 || v == 0xA0 || v == 0x1680 || (0x2000 <= v && v
        <= 0x200A) || v == 0x2028 || v == 0x2029 || v == 0x202F || v == 0x205F || v == 0x3000
}

/// The lower-case form of a hexadecimal digit.
pub open spec fn lower_digit(c: char) -> char {
    if 'A' <= c && c <= 'F' {
        ((c as u32) + 32) as char
    } else {
        c
    }
}

/// `n` in lower-case hexadecimal.
pub open spec fn lower_hex(n: nat) -> Seq<char> {
    Seq::new(numeral(n, 16).len(), |i: int| lower_digit(numeral(n, 16)[i]))
}

/// The lower-case form of a hexadecimal digit.
fn to_lower_digit(c: char) -> (r: char)
    ensures
        r == lower_digit(c),
{
    if c == 'A' {
        'a'
    } else if c == 'B' {
        'b'
    } else if c == 'C' {
        'c'
    } else if c == 'D' {
        'd'
    } else if c == 'E' {
        'e'
    } else if c == 'F' {
        'f'
    } else {
        c
    }
}

/// Write `n` in lower-case hexadecimal.
pub fn to_lower_hex(n: u64) -> (s: String)
    ensures
        s@ == lower_hex(n as nat),
{
    let upper = chars(to_base(n, 16).as_str());
    let mut s = String::new();
    let mut i: usize = 0;
    while i < upper.len()
        invariant
            i <= upper@.len(),
            upper@ == numeral(n as nat, 16),
            s@ == lower_hex(n as nat).take(i as int),
        decreases upper@.len() - i,
    {
        s.push(to_lower_digit(upper[i]));
        i = i + 1;
        assert(s@ =~= lower_hex(n as nat).take(i as int));
    }
    assert(s@ =~= lower_hex(n as nat));
    s
}

/// What one digit is worth, in either case; -1 for anything else.
pub open spec fn digit_value(c: char) -> int {
    if '0' <= c && c <= '9' {
        c as int - '0' as int
    } else if 'A' <= c && c <= 'F' {
        c as int - 'A' as int + 10
    } else if 'a' <= c && c <= 'f' {
        c as int - 'a' as int + 10
    } else {
        -1
    }
}

/// The number that digits in base `base` stand for, read from the left: every further
/// digit multiplies what came before.
pub open spec fn digits_value(s: Seq<char>, base: int) -> int
    decreases s.len(),
{
    if s.len() == 0 {
        0
    } else {
        digits_value(s.drop_last(), base) * base + digit_value(s.last())
    }
}

/// A numeral read digit by digit is the number it was written for. It has only digits
/// of its base, and no leading zero unless the number is zero.
pub proof fn law_numeral_reads_back(n: nat, base: nat)
    requires
        2 <= base <= 16,
    ensures
        digits_value(numeral(n, base), base as int) == n,
        numeral(n, base).len() > 0,
        forall|i: int|
            0 <= i < numeral(n, base).len() ==> 0 <= digit_value(#[trigger] numeral(n, base)[i])
                < base,
        numeral(n, base)[0] == '0' <==> n == 0,
    decreases n,
{
    let s = numeral(n, base);
    if n < base {
        assert(s.drop_last() =~= Seq::<char>::empty());
        assert(digits_value(Seq::<char>::empty(), base as int) == 0);
        assert(s.last() == digit(n as int));
    } else {
        lemma_quotient_shrinks(n, base);
        let q = n / base;
        law_numeral_reads_back(q, base);
        assert(s.drop_last() =~= numeral(q, base));
        assert(n == q * base + n % base && n % base < base && q > 0) by (nonlinear_arith)
            requires
                base >= 2,
                n >= base,
                q == n / base,
        ;
        assert(digit_value(s.last()) == n % base);
        assert(s[0] == numeral(q, base)[0]);
        assert forall|i: int| 0 <= i < s.len() implies 0 <= digit_value(#[trigger] s[i]) < base by {
            if i < s.len() - 1 {
                assert(s[i] == numeral(q, base)[i]);
            }
        }
    }
}

/// A decimal read back is the number it was written for: a minus sign and then the
/// magnitude, or the magnitude alone.
pub proof fn law_decimal_reads_back(v: int)
    ensures
        v >= 0 ==> digits_value(decimal(v), 10) == v && decimal(v)[0] != '-',
        v < 0 ==> decimal(v)[0] == '-' && digits_value(decimal(v).skip(1), 10) == -v,
{
    if v < 0 {
        law_numeral_reads_back((-v) as nat, 10);
        assert(decimal(v).skip(1) =~= numeral((-v) as nat, 10));
    } else {
        law_numeral_reads_back(v as nat, 10);
    }
}

/// Lower-case hexadecimal reads back to the same number, and has no capital.
pub proof fn law_lower_hex_reads_back(n: nat)
    ensures
        digits_value(lower_hex(n), 16) == n,
        forall|i: int|
            0 <= i < lower_hex(n).len() ==> !('A' <= #[trigger] lower_hex(n)[i] && lower_hex(n)[i]
                <= 'Z'),
{
    law_numeral_reads_back(n, 16);
    let s = numeral(n, 16);
    assert forall|i: int| 0 <= i < s.len() implies digit_value(#[trigger] lower_hex(n)[i])
        == digit_value(s[i]) && !('A' <= lower_hex(n)[i] && lower_hex(n)[i] <= 'Z') by {
        assert(0 <= digit_value(s[i]) < 16);
    }
    lemma_same_digits(s, lower_hex(n), 16);
}

/// Digits worth the same stand for the same number.
proof fn lemma_same_digits(a: Seq<char>, b: Seq<char>, base: int)
    requires
        a.len() == b.len(),
        forall|i: int| 0 <= i < a.len() ==> digit_value(#[trigger] b[i]) == digit_value(a[i]),
    ensures
        digits_value(a, base) == digits_value(b, base),
    decreases a.len(),
{
    if a.len() > 0 {
        assert(b[b.len() - 1] == b.last());
        assert forall|i: int| 0 <= i < a.len() - 1 implies digit_value(#[trigger] b.drop_last()[i])
            == digit_value(a.drop_last()[i]) by {
            assert(b.drop_last()[i] == b[i]);
        }
        lemma_same_digits(a.drop_last(), b.drop_last(), base);
    }
}

/// The bytes before the first NUL: none of them is NUL, they start the field, and what
/// follows them, if anything does, is NUL.
pub proof fn law_until_nul_stops_at_the_first(field: Seq<u8>)
    ensures
        until_nul(field).len() <= field.len(),
        forall|i: int| 0 <= i < until_nul(field).len() ==> #[trigger] until_nul(field)[i] == field[i]
            && field[i] != 0,
        until_nul(field).len() < field.len() ==> field[until_nul(field).len() as int] == 0,
    decreases field.len(),
{
    if field.len() > 0 && field[0] != 0 {
        let rest = field.skip(1);
        law_until_nul_stops_at_the_first(rest);
        assert forall|i: int| 0 <= i < until_nul(field).len() implies #[trigger] until_nul(field)[i]
            == field[i] && field[i] != 0 by {
            if i > 0 {
                assert(until_nul(rest)[i - 1] == rest[i - 1]);
            }
        }
    }
}

/// White space among the first 128 characters is the space and the five controls from tab
/// to carriage return; a letter, a digit or a mark of punctuation never is.
pub proof fn law_ascii_white_space(c: char)
    requires
        c as u32 <= 127,
    ensures
        is_space(c) <==> c == ' ' || c == '\t' || c == '\n' || c as u32 == 11 || c as u32 == 12 || c
            == '\r',
{
}

} // verus!
