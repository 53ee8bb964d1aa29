//! Runs of macros and assertions out of tables.
use vstd::prelude::*;
use crate::headers::builder;
use crate::headers::builder::CFile;

verus! {

/// `t` and the first `n` macros of a table, in decimal.
pub open spec fn decs(t: Seq<char>, tab: Seq<(&str, i64)>, n: int) -> Seq<char>
    decreases n,
{
    if n <= 0 {
        t
    } else {
        builder::define_dec(decs(t, tab, n - 1), tab[n - 1].0@, tab[n - 1].1 as int)
    }
}

/// `t` and the first `n` macros of a table, in hexadecimal.
pub open spec fn hexes(t: Seq<char>, tab: Seq<(&str, i64)>, n: int) -> Seq<char>
    decreases n,
{
    if n <= 0 {
        t
    } else {
        builder::define_hex(hexes(t, tab, n - 1), tab[n - 1].0@, tab[n - 1].1 as int)
    }
}

/// `t` and the first `n` macros of a table, verbatim.
pub open spec fn raws(t: Seq<char>, tab: Seq<(&str, &str)>, n: int) -> Seq<char>
    decreases n,
{
    if n <= 0 {
        t
    } else {
        builder::define_raw(raws(t, tab, n - 1), tab[n - 1].0@, tab[n - 1].1@)
    }
}

/// `t` and the first `n` assertions of a table.
pub open spec fn asserts(t: Seq<char>, tab: Seq<(&str, &str)>, n: int) -> Seq<char>
    decreases n,
{
    if n <= 0 {
        t
    } else {
        builder::static_assert(asserts(t, tab, n - 1), tab[n - 1].0@, tab[n - 1].1@)
    }
}

/// `t` and the first `n` lines of a table.
pub open spec fn lines(t: Seq<char>, tab: Seq<&str>, n: int) -> Seq<char>
    decreases n,
{
    if n <= 0 {
        t
    } else {
        builder::line(lines(t, tab, n - 1), tab[n - 1]@)
    }
}

/// No message of a table holds a double quote.
pub open spec fn quote_free(tab: Seq<(&str, &str)>) -> bool {
    forall|i: int| 0 <= i < tab.len() ==> !(#[trigger] tab[i]).1@.contains('"')
}

/// Define every macro of a table in decimal.
pub fn define_decs(f: &mut CFile, tab: &[(&str, i64)])
    ensures
        final(f)@ == decs(old(f)@, tab@, tab@.len() as int),
{
    let mut i: usize = 0;
    while i < tab.len()
        invariant
            i <= tab@.len(),
            f@ == decs(old(f)@, tab@, i as int),
        decreases tab@.len() - i,
    {
        f.define_dec(tab[i].0, tab[i].1);
        i = i + 1;
    }
}

/// Define every macro of a table in hexadecimal.
pub fn define_hexes(f: &mut CFile, tab: &[(&str, i64)])
    requires
        forall|i: int| 0 <= i < tab@.len() ==> (#[trigger] tab@[i]).1 >= 0,
    ensures
        final(f)@ == hexes(old(f)@, tab@, tab@.len() as int),
{
    let mut i: usize = 0;
    while i < tab.len()
        invariant
            i <= tab@.len(),
            forall|k: int| 0 <= k < tab@.len() ==> (#[trigger] tab@[k]).1 >= 0,
            f@ == hexes(old(f)@, tab@, i as int),
        decreases tab@.len() - i,
    {
        f.define_hex(tab[i].0, tab[i].1);
        i = i + 1;
    }
}

/// Define every macro of a table verbatim.
pub fn define_raws(f: &mut CFile, tab: &[(&str, &str)])
    ensures
        final(f)@ == raws(old(f)@, tab@, tab@.len() as int),
{
    let mut i: usize = 0;
    while i < tab.len()
        invariant
            i <= tab@.len(),
            f@ == raws(old(f)@, tab@, i as int),
        decreases tab@.len() - i,
    {
        f.define_raw(tab[i].0, tab[i].1);
        i = i + 1;
    }
}

/// Assert every line of a table.
pub fn static_asserts(f: &mut CFile, tab: &[(&str, &str)])
    requires
        quote_free(tab@),
    ensures
        final(f)@ == asserts(old(f)@, tab@, tab@.len() as int),
{
    let mut i: usize = 0;
    while i < tab.len()
        invariant
            i <= tab@.len(),
            quote_free(tab@),
            f@ == asserts(old(f)@, tab@, i as int),
        decreases tab@.len() - i,
    {
        f.static_assert(tab[i].0, tab[i].1);
        i = i + 1;
    }
}

/// Append every line of a table.
pub fn add_lines(f: &mut CFile, tab: &[&str])
    ensures
        final(f)@ == lines(old(f)@, tab@, tab@.len() as int),
{
    let mut i: usize = 0;
    while i < tab.len()
        invariant
            i <= tab@.len(),
            f@ == lines(old(f)@, tab@, i as int),
        decreases tab@.len() - i,
    {
        f.line(tab[i]);
        i = i + 1;
    }
}

} // verus!
