//! Batteries of requests that must be refused, and the lines that report them.
//!
//! A battery that reports success has had every one of its requests refused in
//! the way it expected; anything else names the request that was not.
use vstd::prelude::*;
use vstd::string::*;
use crate::abi::endpoint::Endpoint;
use crate::abi::message::Message;
use crate::text;
use crate::text::to_decimal;

verus! {

/// The line that names a request which was not refused as expected.
pub open spec fn fail_line(battery: Seq<char>, name: Seq<char>, rc: i32) -> Seq<char> {
    battery + " FAIL "@ + name + " rc="@ + text::decimal(rc as int)
}

/// The line that reports `n` requests refused.
pub open spec fn ok_line(battery: Seq<char>, n: int) -> Seq<char> {
    battery + " ok n="@ + text::decimal(n)
}

/// `label` followed by a number.
pub fn with_number(label: &str, v: i64) -> (s: String)
    ensures
        s@ == label@ + text::decimal(v as int),
{
    let n = to_decimal(v);
    text::concat(label, n.as_str())
}

/// Report that a request came back with `rc`.
pub fn fail(battery: &str, name: &str, rc: i32) -> (s: String)
    ensures
        s@ == fail_line(battery@, name@, rc),
{
    let head = text::concat3(battery, " FAIL ", name);
    let tail = with_number(" rc=", rc as i64);
    let s = text::concat(head.as_str(), tail.as_str());
    assert(s@ =~= fail_line(battery@, name@, rc));
    s
}

/// How many requests of a battery have been refused as expected.
#[derive(Copy, Clone, Debug, PartialEq, Eq, Structural)]
pub struct Tally {
    pub denied: usize,
}

/// How many of these results are the ones expected.
pub open spec fn matches_of(outcomes: Seq<(i32, i32)>) -> nat
    decreases outcomes.len(),
{
    if outcomes.len() == 0 {
        0
    } else {
        matches_of(outcomes.drop_last()) + if outcomes.last().0 == outcomes.last().1 {
            1nat
        } else {
            0nat
        }
    }
}

impl Tally {
    /// Nothing has been tried.
    pub fn new() -> (t: Tally)
        ensures
            t.denied == 0,
    {
        Tally { denied: 0 }
    }

    /// Note that `name` came back with `rc` where `want` was expected: counted, or
    /// the line to print.
    pub fn check(&mut self, battery: &str, name: &str, rc: i32, want: i32) -> (line: Option<String>)
        requires
            old(self).denied < usize::MAX,
        ensures
            rc == want ==> line is None && final(self).denied == old(self).denied + 1,
            rc != want ==> line is Some && line->0@ == fail_line(battery@, name@, rc)
                && final(self).denied == old(self).denied,
    {
        if rc == want {
            self.denied = self.denied + 1;
            None
        } else {
            Some(fail(battery, name, rc))
        }
    }

    /// The closing line, when all `total` requests were refused.
    pub fn summary(&self, battery: &str, total: usize) -> (line: Option<String>)
        requires
            total <= i64::MAX,
        ensures
            self.denied == total ==> line is Some && line->0@ == ok_line(battery@, total as int),
            self.denied != total ==> line is None,
    {
        if self.denied != total {
            return None;
        }
        let tail = with_number(" ok n=", total as i64);
        let s = text::concat(battery, tail.as_str());
        assert(s@ =~= ok_line(battery@, total as int));
        Some(s)
    }
}

/// A request that must be refused, whom it is made of, and how it is refused.
#[derive(Copy, Clone)]
pub struct Probe {
    pub name: &'static str,
    pub to: Endpoint,
    pub call: Message,
    pub want: i32,
}

/// What each of the first requests came back with, and what was expected.
pub open spec fn outcomes(probes: Seq<Probe>, results: Seq<i32>) -> Seq<(i32, i32)> {
    Seq::new(results.len(), |i: int| (results[i], probes[i].want))
}

/// A battery under way: its requests, in order, and how many have been made.
pub struct Run {
    pub battery: &'static str,
    pub probes: Vec<Probe>,
    pub at: usize,
    pub tally: Tally,
}

impl Run {
    /// No more have been made than there are, and no more refused than were made.
    pub open spec fn wf(self) -> bool {
        &&& self.at <= self.probes@.len() <= i64::MAX
        &&& self.tally.denied <= self.at
    }

    /// These are the results so far.
    pub open spec fn had(self, results: Seq<i32>) -> bool {
        &&& self.at == results.len()
        &&& self.tally.denied == matches_of(outcomes(self.probes@, results))
    }

    /// The line after the next request came back with `rc`: one that names it when
    /// it was not refused as expected, and the closing one when it was the last
    /// and all were.
    pub open spec fn line(self, rc: i32) -> Option<Seq<char>> {
        let p = self.probes@[self.at as int];
        if rc != p.want {
            Some(fail_line(self.battery@, p.name@, rc))
        } else if self.at + 1 == self.probes@.len() && self.tally.denied == self.at {
            Some(ok_line(self.battery@, self.probes@.len() as int))
        } else {
            None
        }
    }

    /// Begin a battery.
    pub fn new(battery: &'static str, probes: Vec<Probe>) -> (r: Run)
        requires
            probes@.len() <= i64::MAX,
        ensures
            r.wf(),
            r.battery@ == battery@,
            r.probes@ == probes@,
            r.had(Seq::empty()),
    {
        assert(outcomes(probes@, Seq::empty()) =~= Seq::empty());
        Run { battery, probes, at: 0, tally: Tally::new() }
    }

    /// The next request and whom it goes to; `None` when all have been made.
    pub fn call(&self) -> (c: Option<(Endpoint, Message)>)
        requires
            self.wf(),
        ensures
            c == (if self.at < self.probes@.len() {
                Some((self.probes@[self.at as int].to, self.probes@[self.at as int].call))
            } else {
                None
            }),
    {
        if self.at < self.probes.len() {
            Some((self.probes[self.at].to, self.probes[self.at].call))
        } else {
            None
        }
    }

    /// Take the result of the next request, and say what to print.
    pub fn step(&mut self, rc: i32) -> (line: Option<String>)
        requires
            old(self).wf(),
            old(self).at < old(self).probes@.len(),
        ensures
            final(self).wf(),
            final(self).battery@ == old(self).battery@,
            final(self).probes@ == old(self).probes@,
            final(self).at == old(self).at + 1,
            final(self).tally.denied == old(self).tally.denied + (if rc == old(
                self,
            ).probes@[old(self).at as int].want {
                1int
            } else {
                0
            }),
            forall|results: Seq<i32>|
                old(self).had(results) ==> #[trigger] final(self).had(results.push(rc)),
            match line {
                Some(s) => old(self).line(rc) == Some(s@),
                None => old(self).line(rc) is None,
            },
    {
        let total: usize = self.probes.len();
        let p = self.probes[self.at];
        self.at = self.at + 1;
        let failed = self.tally.check(self.battery, p.name, rc, p.want);
        assert forall|results: Seq<i32>| old(self).had(results) implies #[trigger] self.had(
            results.push(rc),
        ) by {
            let all = outcomes(self.probes@, results.push(rc));
            assert(all.drop_last() =~= outcomes(self.probes@, results));
        }
        if failed.is_some() || self.at < total {
            return failed;
        }
        self.tally.summary(self.battery, total)
    }
}

/// A battery closes with the line that reports success exactly when every one of
/// its requests was refused as expected.
pub proof fn law_battery_ok_means_all_refused(r: Run, results: Seq<i32>, rc: i32)
    requires
        r.wf(),
        r.had(results),
        r.at + 1 == r.probes@.len(),
    ensures
        r.line(rc) == Some(ok_line(r.battery@, r.probes@.len() as int)) <==> forall|i: int|
            0 <= i < r.probes@.len() ==> (#[trigger] r.probes@[i]).want == results.push(rc)[i],
{
    let last = r.probes@[r.at as int];
    let all = outcomes(r.probes@, results);
    law_ok_means_all_refused(all);
    lemma_lines_differ(r.battery@, last.name@, rc, r.probes@.len() as int);
    if r.line(rc) == Some(ok_line(r.battery@, r.probes@.len() as int)) {
        assert forall|i: int| 0 <= i < r.probes@.len() implies (#[trigger] r.probes@[i]).want
            == results.push(rc)[i] by {
            if i < results.len() {
                assert(all[i].0 == all[i].1);
            }
        }
    }
    if forall|i: int|
        0 <= i < r.probes@.len() ==> (#[trigger] r.probes@[i]).want == results.push(rc)[i] {
        assert forall|i: int| 0 <= i < all.len() implies (#[trigger] all[i]).0 == all[i].1 by {
            assert(r.probes@[i].want == results.push(rc)[i]);
        }
        assert(last.want == results.push(rc)[r.at as int]);
    }
}

/// A line that names a failure is no line that reports success.
proof fn lemma_lines_differ(battery: Seq<char>, name: Seq<char>, rc: i32, n: int)
    ensures
        fail_line(battery, name, rc) != ok_line(battery, n),
{
    reveal_strlit(" FAIL ");
    reveal_strlit(" ok n=");
    let i = battery.len() as int + 1;
    assert(fail_line(battery, name, rc)[i] == 'F');
    assert(ok_line(battery, n)[i] == 'o');
}

/// The closing line appears exactly when no request came back differently.
pub proof fn law_ok_means_all_refused(outcomes: Seq<(i32, i32)>)
    ensures
        matches_of(outcomes) <= outcomes.len(),
        matches_of(outcomes) == outcomes.len() <==> forall|i: int|
            0 <= i < outcomes.len() ==> (#[trigger] outcomes[i]).0 == outcomes[i].1,
    decreases outcomes.len(),
{
    if outcomes.len() > 0 {
        let rest = outcomes.drop_last();
        law_ok_means_all_refused(rest);
        if matches_of(outcomes) == outcomes.len() {
            assert forall|i: int| 0 <= i < outcomes.len() implies (#[trigger] outcomes[i]).0
                == outcomes[i].1 by {
                if i < rest.len() {
                    assert(rest[i] == outcomes[i]);
                }
            }
        }
        if forall|i: int|
            0 <= i < outcomes.len() ==> (#[trigger] outcomes[i]).0 == outcomes[i].1 {
            assert forall|i: int| 0 <= i < rest.len() implies (#[trigger] rest[i]).0
                == rest[i].1 by {
                assert(rest[i] == outcomes[i]);
            }
            assert(outcomes.last() == outcomes[outcomes.len() - 1]);
        }
    }
}

/// The line that names a request tells its code, and the closing line its count: lines
/// that are alike tell the same number.
pub proof fn law_lines_tell_their_numbers(
    battery: Seq<char>,
    name: Seq<char>,
    a: i32,
    b: i32,
    n: int,
    m: int,
)
    ensures
        fail_line(battery, name, a) == fail_line(battery, name, b) ==> a == b,
        ok_line(battery, n) == ok_line(battery, m) ==> n == m,
        fail_line(battery, name, a) == battery + (" FAIL "@ + (name + (" rc="@ + text::decimal(
            a as int,
        )))),
        ok_line(battery, n) == battery + (" ok n="@ + text::decimal(n)),
{
    let head = battery + " FAIL "@ + name + " rc="@;
    let h = head.len() as int;
    assert(fail_line(battery, name, a).skip(h) =~= text::decimal(a as int));
    assert(fail_line(battery, name, b).skip(h) =~= text::decimal(b as int));
    if fail_line(battery, name, a) == fail_line(battery, name, b) {
        lemma_decimal_tells(a as int, b as int);
    }
    let lead = battery + " ok n="@;
    let l = lead.len() as int;
    assert(ok_line(battery, n).skip(l) =~= text::decimal(n));
    assert(ok_line(battery, m).skip(l) =~= text::decimal(m));
    if ok_line(battery, n) == ok_line(battery, m) {
        lemma_decimal_tells(n, m);
    }
    assert(fail_line(battery, name, a) =~= battery + (" FAIL "@ + (name + (" rc="@ + text::decimal(
        a as int,
    )))));
    assert(ok_line(battery, n) =~= battery + (" ok n="@ + text::decimal(n)));
}

proof fn lemma_decimal_tells(a: int, b: int)
    requires
        text::decimal(a) == text::decimal(b),
    ensures
        a == b,
{
    text::law_decimal_reads_back(a);
    text::law_decimal_reads_back(b);
}

} // verus!
