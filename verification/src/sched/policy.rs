//! Scheduling policy: which band and quantum each managed process gets.
use vstd::prelude::*;
use crate::table;

verus! {

/// The managed band: that of the boot servers, so that a busy managed process
/// takes turns with them.
pub const USER_Q: u8 = 8;

/// The quantum handed out by default, in clock ticks.
pub const QUANTUM: i32 = 5;

/// Processes the policy can manage.
pub const CAP: usize = 16;

/// One managed process. A slot not in use is free.
#[derive(Copy, Clone, Debug, PartialEq, Eq, Structural)]
pub struct SchedProc {
    pub proc_nr: i32,
    pub priority: u8,
    pub quantum: i32,
    pub in_use: bool,
}

impl SchedProc {
    /// A free slot.
    pub open spec fn empty_spec() -> SchedProc {
        SchedProc { proc_nr: 0, priority: 0, quantum: 0, in_use: false }
    }

    /// A free slot.
    #[verifier::when_used_as_spec(empty_spec)]
    pub fn empty() -> (e: SchedProc)
        ensures
            e == SchedProc::empty_spec(),
    {
        SchedProc { proc_nr: 0, priority: 0, quantum: 0, in_use: false }
    }
}

/// The slots of process `nr`.
pub open spec fn manages(nr: i32) -> spec_fn(SchedProc) -> bool {
    |e: SchedProc| e.in_use && e.proc_nr == nr
}

/// The free slots.
pub open spec fn free() -> spec_fn(SchedProc) -> bool {
    |e: SchedProc| !e.in_use
}

/// The slots in use.
pub open spec fn used() -> spec_fn(SchedProc) -> bool {
    |e: SchedProc| e.in_use
}

/// Whether the policy manages `nr`.
pub open spec fn managed(t: Seq<SchedProc>, nr: i32) -> bool {
    table::any(t, manages(nr))
}

/// Whether the policy manages `nr` or has room for it.
pub open spec fn manageable(t: Seq<SchedProc>, nr: i32) -> bool {
    managed(t, nr) || table::any(t, free())
}

/// The slot that is `nr`'s, or would be: its own, or else the first free one.
pub open spec fn slot(t: Seq<SchedProc>, nr: i32) -> int {
    if managed(t, nr) {
        table::first(t, manages(nr))
    } else {
        table::first(t, free())
    }
}

/// The band and quantum of `nr`.
pub open spec fn params(t: Seq<SchedProc>, nr: i32) -> Option<(u8, i32)> {
    if managed(t, nr) {
        Some((t[slot(t, nr)].priority, t[slot(t, nr)].quantum))
    } else {
        None
    }
}

/// The table with `nr` at this band and quantum, where there is room.
pub open spec fn recorded(t: Seq<SchedProc>, nr: i32, priority: u8, quantum: i32) -> Seq<
    SchedProc,
> {
    if manageable(t, nr) {
        t.update(slot(t, nr), SchedProc { proc_nr: nr, priority, quantum, in_use: true })
    } else {
        t
    }
}

/// The table with `nr` no longer managed.
pub open spec fn forgotten(t: Seq<SchedProc>, nr: i32) -> Seq<SchedProc> {
    if managed(t, nr) {
        t.update(slot(t, nr), SchedProc::empty_spec())
    } else {
        t
    }
}

/// No process has two slots.
pub open spec fn wf(t: Seq<SchedProc>) -> bool {
    forall|i: int, j: int|
        0 <= i < j < t.len() && (#[trigger] t[i]).in_use && (#[trigger] t[j]).in_use
            ==> t[i].proc_nr != t[j].proc_nr
}

fn find(t: &[SchedProc; 16], nr: i32) -> (i: usize)
    ensures
        i == table::first(t@, manages(nr)),
        i <= 16,
        i < 16 ==> t@[i as int].in_use && t@[i as int].proc_nr == nr,
{
    let mut i: usize = 0;
    while i < 16
        invariant
            i <= 16,
            table::first(t@, manages(nr)) == table::first_from(t@, manages(nr), i as int),
        decreases 16 - i,
    {
        if t[i].in_use && t[i].proc_nr == nr {
            return i;
        }
        i = i + 1;
    }
    i
}

fn find_free(t: &[SchedProc; 16]) -> (i: usize)
    ensures
        i == table::first(t@, free()),
        i <= 16,
{
    let mut i: usize = 0;
    while i < 16
        invariant
            i <= 16,
            table::first(t@, free()) == table::first_from(t@, free(), i as int),
        decreases 16 - i,
    {
        if !t[i].in_use {
            return i;
        }
        i = i + 1;
    }
    i
}

/// The band and quantum of `nr`, which is registered at the defaults when first
/// seen. `None` when it is new and the table full.
pub fn schedule_in(t: &mut [SchedProc; 16], nr: i32) -> (r: Option<(u8, i32)>)
    ensures
        managed(old(t)@, nr) ==> r == params(old(t)@, nr) && final(t)@ == old(t)@,
        !managed(old(t)@, nr) && manageable(old(t)@, nr) ==> r == Some((USER_Q, QUANTUM))
            && final(t)@ == recorded(old(t)@, nr, USER_Q, QUANTUM),
        !manageable(old(t)@, nr) ==> r is None && final(t)@ == old(t)@,
{
    let i: usize = find(t, nr);
    if i < 16 {
        return Some((t[i].priority, t[i].quantum));
    }
    let j: usize = find_free(t);
    if j < 16 {
        t[j] = SchedProc { proc_nr: nr, priority: USER_Q, quantum: QUANTUM, in_use: true };
        return Some((USER_Q, QUANTUM));
    }
    None
}

/// Record or update `nr`'s band and quantum. `false` when it is new and the table
/// full.
pub fn record_in(t: &mut [SchedProc; 16], nr: i32, priority: u8, quantum: i32) -> (ok: bool)
    ensures
        ok == manageable(old(t)@, nr),
        final(t)@ == recorded(old(t)@, nr, priority, quantum),
{
    let i: usize = find(t, nr);
    if i < 16 {
        t[i].priority = priority;
        t[i].quantum = quantum;
        return true;
    }
    let j: usize = find_free(t);
    if j < 16 {
        t[j] = SchedProc { proc_nr: nr, priority, quantum, in_use: true };
        return true;
    }
    false
}

/// The quantum a renice leaves `nr` with: its own, or the default when it is new.
pub open spec fn kept_quantum(t: Seq<SchedProc>, nr: i32) -> i32 {
    if managed(t, nr) {
        t[slot(t, nr)].quantum
    } else {
        QUANTUM
    }
}

/// Change `nr`'s band and keep its quantum. `None` when it is new and the table
/// full.
pub fn renice_in(t: &mut [SchedProc; 16], nr: i32, priority: u8) -> (r: Option<i32>)
    ensures
        r == (if manageable(old(t)@, nr) {
            Some(kept_quantum(old(t)@, nr))
        } else {
            None
        }),
        final(t)@ == recorded(old(t)@, nr, priority, kept_quantum(old(t)@, nr)),
{
    let i: usize = find(t, nr);
    if i < 16 {
        t[i].priority = priority;
        return Some(t[i].quantum);
    }
    let j: usize = find_free(t);
    if j < 16 {
        t[j] = SchedProc { proc_nr: nr, priority, quantum: QUANTUM, in_use: true };
        return Some(QUANTUM);
    }
    None
}

/// Stop managing `nr`; nothing happens when it is not managed.
pub fn forget_in(t: &mut [SchedProc; 16], nr: i32)
    ensures
        final(t)@ == forgotten(old(t)@, nr),
{
    let i: usize = find(t, nr);
    if i < 16 {
        t[i] = SchedProc::empty();
    }
}

/// The policy state a server keeps.
pub struct Policy {
    pub procs: [SchedProc; 16],
}

impl Policy {
    /// No process has two slots.
    pub open spec fn wf(self) -> bool {
        wf(self.procs@)
    }

    /// A policy that manages nothing.
    pub fn new() -> (p: Policy)
        ensures
            p.wf(),
            p.procs@ == Seq::new(16, |i: int| SchedProc::empty_spec()),
    {
        let p = Policy { procs: [SchedProc::empty();16] };
        assert(p.procs@ =~= Seq::new(16, |i: int| SchedProc::empty_spec()));
        p
    }
}

/// The band and quantum of `nr`, registered at the defaults when first seen.
pub fn schedule_proc(p: &mut Policy, nr: i32) -> (r: Option<(u8, i32)>)
    requires
        old(p).wf(),
    ensures
        final(p).wf(),
        managed(old(p).procs@, nr) ==> r == params(old(p).procs@, nr) && final(p).procs@ == old(
            p,
        ).procs@,
        !managed(old(p).procs@, nr) && manageable(old(p).procs@, nr) ==> r == Some(
            (USER_Q, QUANTUM),
        ) && final(p).procs@ == recorded(old(p).procs@, nr, USER_Q, QUANTUM),
        !manageable(old(p).procs@, nr) ==> r is None && final(p).procs@ == old(p).procs@,
{
    proof {
        law_one_slot_each(p.procs@, nr, USER_Q, QUANTUM);
    }
    schedule_in(&mut p.procs, nr)
}

/// Record or update `nr`'s band and quantum.
pub fn record(p: &mut Policy, nr: i32, priority: u8, quantum: i32) -> (ok: bool)
    requires
        old(p).wf(),
    ensures
        final(p).wf(),
        ok == manageable(old(p).procs@, nr),
        final(p).procs@ == recorded(old(p).procs@, nr, priority, quantum),
{
    proof {
        law_one_slot_each(p.procs@, nr, priority, quantum);
    }
    record_in(&mut p.procs, nr, priority, quantum)
}

/// Change `nr`'s band and keep its quantum.
pub fn renice(p: &mut Policy, nr: i32, priority: u8) -> (r: Option<i32>)
    requires
        old(p).wf(),
    ensures
        final(p).wf(),
        r == (if manageable(old(p).procs@, nr) {
            Some(kept_quantum(old(p).procs@, nr))
        } else {
            None
        }),
        final(p).procs@ == recorded(
            old(p).procs@,
            nr,
            priority,
            kept_quantum(old(p).procs@, nr),
        ),
{
    proof {
        law_one_slot_each(p.procs@, nr, priority, kept_quantum(p.procs@, nr));
    }
    renice_in(&mut p.procs, nr, priority)
}

/// Stop managing `nr`.
pub fn forget(p: &mut Policy, nr: i32)
    requires
        old(p).wf(),
    ensures
        final(p).wf(),
        final(p).procs@ == forgotten(old(p).procs@, nr),
{
    proof {
        law_one_slot_each(p.procs@, nr, 0, 0);
    }
    forget_in(&mut p.procs, nr)
}

proof fn lemma_slot(t: Seq<SchedProc>, nr: i32)
    ensures
        manageable(t, nr) ==> 0 <= slot(t, nr) < t.len(),
        managed(t, nr) ==> t[slot(t, nr)].in_use && t[slot(t, nr)].proc_nr == nr,
        !managed(t, nr) && manageable(t, nr) ==> !t[slot(t, nr)].in_use,
        !managed(t, nr) ==> forall|k: int|
            0 <= k < t.len() && (#[trigger] t[k]).in_use ==> t[k].proc_nr != nr,
{
    table::lemma_first(t, manages(nr));
    table::lemma_first(t, free());
    if !managed(t, nr) {
        assert forall|k: int| 0 <= k < t.len() && (#[trigger] t[k]).in_use implies t[k].proc_nr
            != nr by {
            assert(!manages(nr)(t[k]));
        }
    }
}

/// Neither recording nor forgetting ever gives a process a second slot.
pub proof fn law_one_slot_each(t: Seq<SchedProc>, nr: i32, priority: u8, quantum: i32)
    requires
        wf(t),
    ensures
        wf(recorded(t, nr, priority, quantum)),
        wf(forgotten(t, nr)),
{
    lemma_slot(t, nr);
    let u = recorded(t, nr, priority, quantum);
    let s = slot(t, nr);
    assert forall|i: int, j: int|
        0 <= i < j < u.len() && (#[trigger] u[i]).in_use && (#[trigger] u[j]).in_use implies u[i].proc_nr
        != u[j].proc_nr by {
        if manageable(t, nr) && (i == s || j == s) {
            let o = if i == s {
                j
            } else {
                i
            };
            assert(u[o] == t[o]);
            assert(t[o].in_use);
            if managed(t, nr) {
                assert(t[s].in_use);
            }
        }
    }
    let f = forgotten(t, nr);
    assert forall|i: int, j: int|
        0 <= i < j < f.len() && (#[trigger] f[i]).in_use && (#[trigger] f[j]).in_use implies f[i].proc_nr
        != f[j].proc_nr by {
        assert(f[i] == t[i] && f[j] == t[j]);
    }
}

/// What is recorded is what a process is scheduled with, and no other process is
/// touched.
pub proof fn law_recorded_is_scheduled(t: Seq<SchedProc>, nr: i32, priority: u8, quantum: i32)
    requires
        manageable(t, nr),
    ensures
        params(recorded(t, nr, priority, quantum), nr) == Some((priority, quantum)),
        forall|o: i32|
            o != nr ==> params(recorded(t, nr, priority, quantum), o) == params(t, o),
{
    lemma_slot(t, nr);
    let s = slot(t, nr);
    let u = recorded(t, nr, priority, quantum);
    table::lemma_first(t, manages(nr));
    assert forall|k: int| 0 <= k < s implies !manages(nr)(#[trigger] u[k]) by {
        assert(u[k] == t[k]);
        assert(!manages(nr)(t[k]));
    }
    table::lemma_first_is(u, manages(nr), s);
    assert forall|o: i32| o != nr implies params(u, o) == params(t, o) by {
        assert forall|k: int| 0 <= k < t.len() implies manages(o)(#[trigger] t[k]) == manages(o)(
            u[k],
        ) by {
            if k != s {
                assert(u[k] == t[k]);
            }
        }
        table::lemma_first_agrees(t, u, manages(o));
        table::lemma_first(t, manages(o));
    }
}

/// A renice changes the band and nothing else of the process.
pub proof fn law_renice_keeps_quantum(t: Seq<SchedProc>, nr: i32, priority: u8)
    requires
        managed(t, nr),
    ensures
        params(recorded(t, nr, priority, kept_quantum(t, nr)), nr) == Some(
            (priority, (params(t, nr)->0).1),
        ),
{
    law_recorded_is_scheduled(t, nr, priority, kept_quantum(t, nr));
}

/// Recording takes a slot only for a process that had none; forgetting frees it.
pub proof fn law_slots_used(t: Seq<SchedProc>, nr: i32, priority: u8, quantum: i32)
    ensures
        table::count(recorded(t, nr, priority, quantum), used()) == table::count(t, used()) + (
        if managed(t, nr) || !manageable(t, nr) {
            0int
        } else {
            1
        }),
        table::count(forgotten(t, nr), used()) == table::count(t, used()) - (if managed(t, nr) {
            1int
        } else {
            0
        }),
{
    lemma_slot(t, nr);
    let s = slot(t, nr);
    if manageable(t, nr) {
        table::lemma_count_update(
            t,
            used(),
            s,
            SchedProc { proc_nr: nr, priority, quantum, in_use: true },
        );
        table::lemma_count_update(t, used(), s, SchedProc::empty_spec());
    }
}

/// Once forgotten, a process is unknown again.
pub proof fn law_forgotten_is_unknown(t: Seq<SchedProc>, nr: i32)
    requires
        wf(t),
    ensures
        !managed(forgotten(t, nr), nr),
{
    lemma_slot(t, nr);
    let f = forgotten(t, nr);
    assert forall|k: int| 0 <= k < f.len() implies !manages(nr)(#[trigger] f[k]) by {
        if managed(t, nr) && k != slot(t, nr) {
            assert(f[k] == t[k]);
            assert(t[slot(t, nr)].in_use);
        }
    }
    table::lemma_first_is(f, manages(nr), f.len() as int);
}

/// Forgetting a process leaves every other as it was.
pub proof fn law_forgetting_touches_no_other(t: Seq<SchedProc>, nr: i32)
    ensures
        forall|o: i32| o != nr ==> params(forgotten(t, nr), o) == params(t, o),
{
    lemma_slot(t, nr);
    let f = forgotten(t, nr);
    assert forall|o: i32| o != nr implies params(f, o) == params(t, o) by {
        assert forall|k: int| 0 <= k < t.len() implies manages(o)(#[trigger] t[k]) == manages(o)(
            f[k],
        ) by {
            if managed(t, nr) && k != slot(t, nr) {
                assert(f[k] == t[k]);
            }
        }
        table::lemma_first_agrees(t, f, manages(o));
        table::lemma_first(t, manages(o));
    }
}

/// What the policy answers for a process is read from a slot of its own, and there
/// is an answer exactly when it has one; one with none finds room exactly when some
/// slot is free.
pub proof fn law_params_are_the_slot(t: Seq<SchedProc>, nr: i32)
    requires
        wf(t),
    ensures
        params(t, nr) is Some <==> exists|k: int|
            0 <= k < t.len() && (#[trigger] t[k]).in_use && t[k].proc_nr == nr,
        forall|k: int|
            0 <= k < t.len() && (#[trigger] t[k]).in_use && t[k].proc_nr == nr ==> params(t, nr)
                == Some((t[k].priority, t[k].quantum)),
        manageable(t, nr) <==> params(t, nr) is Some || exists|k: int|
            0 <= k < t.len() && !(#[trigger] t[k]).in_use,
{
    lemma_slot(t, nr);
    table::lemma_first(t, free());
    if managed(t, nr) {
        assert(t[slot(t, nr)].in_use);
        assert forall|k: int|
            0 <= k < t.len() && (#[trigger] t[k]).in_use && t[k].proc_nr == nr implies k == slot(
            t,
            nr,
        ) by {
            assert(t[slot(t, nr)].in_use);
        }
    }
    if table::any(t, free()) {
        assert(!t[table::first(t, free())].in_use);
    } else {
        assert forall|k: int| 0 <= k < t.len() implies (#[trigger] t[k]).in_use by {
            assert(!free()(t[k]));
        }
    }
}

} // verus!
