//! What the process table keeps, and the life of a child from fork to reaping.
use vstd::prelude::*;
use crate::abi::endpoint::Endpoint;
use crate::pm::mproc;
use crate::pm::mproc::{KillAction, MProc, FORK_POOL_BASE, MF_DEAD, MF_IN_USE, MF_WAITING};
use crate::table;

verus! {

/// Every process's parent is a slot of the table.
pub open spec fn parents_in_range(t: Seq<MProc>) -> bool {
    forall|i: int| 0 <= i < t.len() && (#[trigger] t[i]).used() ==> t[i].parent_slot < t.len()
}

/// The table is in order: parents are slots, no slot holds a negative pid, and no
/// two processes share one.
pub open spec fn wf(t: Seq<MProc>) -> bool {
    &&& t.len() == 32
    &&& parents_in_range(t)
    &&& forall|i: int| 0 <= i < 32 ==> (#[trigger] t[i]).pid >= 0
    &&& forall|i: int, j: int|
        0 <= i < j < 32 && (#[trigger] t[i]).used() && (#[trigger] t[j]).used() ==> t[i].pid
            != t[j].pid
}

/// No flags at all: nobody is there.
pub proof fn lemma_no_flags()
    ensures
        0u8 & MF_IN_USE == 0,
{
    assert(0u8 & 1u8 == 0) by (bit_vector);
}

/// How each mark changes the others: only the one meant.
pub proof fn lemma_marks(f: u8)
    ensures
        (f | MF_DEAD) & MF_IN_USE == f & MF_IN_USE,
        (f | MF_DEAD) & MF_DEAD != 0,
        (f | MF_DEAD) & 2 == f & 2,
        (f | MF_DEAD) & MF_WAITING == f & MF_WAITING,
        (f | MF_WAITING) & MF_IN_USE == f & MF_IN_USE,
        (f | MF_WAITING) & MF_DEAD == f & MF_DEAD,
        (f | MF_WAITING) & MF_WAITING != 0,
        (f & !MF_WAITING) & MF_IN_USE == f & MF_IN_USE,
        (f & !MF_WAITING) & MF_DEAD == f & MF_DEAD,
        (f & !MF_WAITING) & MF_WAITING == 0,
        f & MF_IN_USE != 0 ==> f != 0,
        0u8 & MF_IN_USE == 0,
        1u8 & MF_IN_USE != 0,
        1u8 & MF_DEAD == 0,
        1u8 & 2 == 0,
        1u8 & MF_WAITING == 0,
        3u8 & MF_IN_USE != 0,
        3u8 & MF_DEAD == 0,
        3u8 & 2 != 0,
{
    assert((f | 4) & 1 == f & 1 && (f | 4) & 4 != 0 && (f | 4) & 2 == f & 2 && (f | 4) & 8 == f & 8
        && (f | 8) & 1 == f & 1 && (f | 8) & 4 == f & 4 && (f | 8) & 8 != 0 && (f & !8u8) & 1 == f
        & 1 && (f & !8u8) & 4 == f & 4 && (f & !8u8) & 8 == 0 && (f & 1 != 0 ==> f != 0))
        by (bit_vector);
    assert(0u8 & 1 == 0 && 1u8 & 1 != 0 && 1u8 & 4 == 0 && 1u8 & 2 == 0 && 1u8 & 8 == 0 && 3u8 & 1
        != 0 && 3u8 & 4 == 0 && 3u8 & 2 != 0) by (bit_vector);
}

/// The boot processes are in order: in particular no two share a pid.
pub proof fn law_seed_is_wf(t: Seq<MProc>)
    requires
        t.len() == 32,
        forall|i: int|
            FORK_POOL_BASE <= i < 32 ==> (#[trigger] t[i]).flags == 0 && t[i].pid >= 0,
    ensures
        wf(mproc::seeded(t)),
        forall|i: int| 0 <= i < FORK_POOL_BASE ==> (#[trigger] mproc::seeded(t)[i]).alive(),
{
    lemma_marks(0);
    let u = mproc::seeded(t);
    assert forall|i: int| 0 <= i < 32 implies (#[trigger] u[i]).used() == (i < FORK_POOL_BASE) by {
        if i >= FORK_POOL_BASE {
            assert(t[i].flags == 0);
        }
    }
}

/// Marking, reaping and waiting keep the table in order.
pub proof fn law_updates_keep_wf(t: Seq<MProc>, slot: int, status: i32, waiting: bool)
    requires
        wf(t),
    ensures
        0 <= slot < 32 ==> wf(mproc::marked_dead(t, slot)),
        wf(mproc::with_zombie(t, slot, status)),
        wf(mproc::with_waiting(t, slot, waiting)),
        wf(mproc::without(t, slot)),
{
    if 0 <= slot < 32 {
        lemma_marks(t[slot].flags);
        lemma_same_identity_wf(t, mproc::marked_dead(t, slot), slot);
        lemma_same_identity_wf(t, mproc::with_zombie(t, slot, status), slot);
        lemma_same_identity_wf(t, mproc::with_waiting(t, slot, waiting), slot);
        let u = mproc::without(t, slot);
        assert forall|i: int, j: int|
            0 <= i < j < 32 && (#[trigger] u[i]).used() && (#[trigger] u[j]).used() implies u[i].pid
            != u[j].pid by {
            assert(u[i] == t[i] && u[j] == t[j]);
        }
    }
}

proof fn lemma_same_identity_wf(t: Seq<MProc>, u: Seq<MProc>, slot: int)
    requires
        wf(t),
        0 <= slot < 32,
        u.len() == 32,
        u[slot].used() == t[slot].used(),
        u[slot].pid == t[slot].pid,
        u[slot].parent_slot == t[slot].parent_slot,
        forall|i: int| 0 <= i < 32 && i != slot ==> u[i] == #[trigger] t[i],
    ensures
        wf(u),
{
    assert forall|i: int| 0 <= i < 32 implies (#[trigger] u[i]).used() == t[i].used() && u[i].pid
        == t[i].pid && u[i].parent_slot == t[i].parent_slot by {
        if i != slot {
            assert(u[i] == t[i]);
        }
    }
    assert forall|i: int, j: int|
        0 <= i < j < 32 && (#[trigger] u[i]).used() && (#[trigger] u[j]).used() implies u[i].pid
        != u[j].pid by {
        assert(t[i].used() && t[j].used());
    }
}

pub proof fn lemma_max_pid(t: Seq<MProc>, i: int)
    requires
        0 <= i < t.len(),
    ensures
        t[i].flags != 0 ==> mproc::highest_pid(t) is Some && t[i].pid <= mproc::max_pid(t),
        (forall|k: int| 0 <= k < t.len() ==> (#[trigger] t[k]).pid >= 0) ==> mproc::max_pid(t) >= 0,
    decreases t.len(),
{
    reveal_with_fuel(mproc::highest_pid, 2);
    let rest = t.drop_last();
    assert(forall|k: int| 0 <= k < rest.len() ==> rest[k] == t[k]);
    if i < t.len() - 1 {
        lemma_max_pid(rest, i);
    } else if t.len() > 1 {
        lemma_max_pid(rest, 0);
    }
}

/// A new child keeps the table in order: its pid is nobody else's.
pub proof fn law_child_keeps_wf(t: Seq<MProc>, slot: int, parent_slot: usize, e: Endpoint)
    requires
        wf(t),
        0 <= slot < 32,
        parent_slot < 32,
        mproc::max_pid(t) < i32::MAX,
    ensures
        wf(mproc::with_child(t, slot, parent_slot, e)),
{
    lemma_marks(1);
    let u = mproc::with_child(t, slot, parent_slot, e);
    lemma_max_pid(t, slot);
    assert forall|i: int, j: int|
        0 <= i < j < 32 && (#[trigger] u[i]).used() && (#[trigger] u[j]).used() implies u[i].pid
        != u[j].pid by {
        lemma_max_pid(t, i);
        lemma_max_pid(t, j);
        lemma_marks(t[i].flags);
        lemma_marks(t[j].flags);
        if i != slot && j != slot {
            assert(u[i] == t[i] && u[j] == t[j]);
        }
    }
}

/// A child that was just forked is alive, has the parent it was forked from, and
/// a pid above every other.
pub proof fn law_child_is_born(t: Seq<MProc>, slot: int, parent_slot: usize, e: Endpoint)
    requires
        wf(t),
        slot == mproc::free_slot(t),
        slot < 32,
        parent_slot < 32,
        parent_slot != slot,
        mproc::max_pid(t) < i32::MAX,
    ensures
        ({
            let u = mproc::with_child(t, slot, parent_slot, e);
            &&& mproc::ids(u, slot) == Some(((mproc::max_pid(t) + 1) as i32, t[parent_slot as int].pid))
            &&& mproc::has_child(u, parent_slot)
            &&& forall|i: int|
                0 <= i < 32 && (#[trigger] u[i]).used() ==> u[i].pid <= mproc::max_pid(t) + 1
            &&& forall|i: int| 0 <= i < 32 && i != slot ==> u[i] == #[trigger] t[i]
        }),
{
    lemma_marks(1);
    lemma_free_slot(t);
    let u = mproc::with_child(t, slot, parent_slot, e);
    assert(mproc::live_child(u, parent_slot, slot));
    assert forall|i: int| 0 <= i < 32 && (#[trigger] u[i]).used() implies u[i].pid
        <= mproc::max_pid(t) + 1 by {
        lemma_max_pid(t, i);
        lemma_marks(t[i].flags);
    }
}

proof fn lemma_free_from(t: Seq<MProc>, i: int)
    requires
        0 <= i <= t.len(),
    ensures
        i <= table::first_from(t, mproc::vacant(), i) <= t.len(),
        table::first_from(t, mproc::vacant(), i) < t.len() ==> t[table::first_from(
            t,
            mproc::vacant(),
            i,
        )].flags == 0,
        forall|k: int|
            i <= k < table::first_from(t, mproc::vacant(), i) ==> (#[trigger] t[k]).flags != 0,
    decreases t.len() - i,
{
    if i < t.len() && t[i].flags != 0 {
        lemma_free_from(t, i + 1);
    }
}

proof fn lemma_free_from_is(t: Seq<MProc>, i: int, slot: int)
    requires
        0 <= i <= slot < t.len(),
        t[slot].flags == 0,
        forall|k: int| i <= k < slot ==> (#[trigger] t[k]).flags != 0,
    ensures
        table::first_from(t, mproc::vacant(), i) == slot,
    decreases slot - i,
{
    if i < slot {
        assert(t[i].flags != 0);
        lemma_free_from_is(t, i + 1, slot);
    }
}

/// A free slot, if there is one, lies in the fork pool and is taken by nobody;
/// every slot of the pool below it is taken.
pub proof fn lemma_free_slot(t: Seq<MProc>)
    requires
        t.len() == 32,
    ensures
        FORK_POOL_BASE <= mproc::free_slot(t) <= 32,
        mproc::free_slot(t) < 32 ==> t[mproc::free_slot(t)].flags == 0,
        forall|k: int| FORK_POOL_BASE <= k < mproc::free_slot(t) ==> (#[trigger] t[k]).flags != 0,
{
    lemma_free_from(t, FORK_POOL_BASE as int);
}

/// A terminated child is no longer alive, has no pid to be asked for, and keeps the
/// status it left for its parent.
pub proof fn law_exit_leaves_a_zombie(t: Seq<MProc>, slot: int, status: i32)
    requires
        wf(t),
        0 <= slot < 32,
        t[slot].alive(),
    ensures
        ({
            let u = mproc::with_zombie(t, slot, status);
            &&& mproc::ids(u, slot) is None
            &&& !mproc::live_child(u, t[slot].parent_slot, slot)
            &&& mproc::zombie_of(t[slot].parent_slot)(u[slot])
            &&& u[slot].pid == t[slot].pid
            &&& u[slot].exit_status == status
            &&& forall|k: int| 0 <= k < 32 && k != slot ==> u[k] == #[trigger] t[k]
        }),
{
    lemma_marks(t[slot].flags);
}

/// The table after `parent` has waited `n` times, each time collecting its first
/// terminated child, if there is one.
pub open spec fn collected(t: Seq<MProc>, parent: usize, n: nat) -> Seq<MProc>
    decreases n,
{
    if n == 0 {
        t
    } else {
        let u = collected(t, parent, (n - 1) as nat);
        match mproc::first_zombie(u, parent) {
            Some((slot, _, _)) => mproc::without(u, slot),
            None => u,
        }
    }
}

proof fn lemma_collected(t: Seq<MProc>, parent: usize, slot: int, n: nat)
    requires
        0 <= slot < t.len(),
        mproc::zombie_of(parent)(t[slot]),
        n <= table::count(t.take(slot), mproc::zombie_of(parent)),
    ensures
        collected(t, parent, n).len() == t.len(),
        collected(t, parent, n)[slot] == t[slot],
        table::count(collected(t, parent, n).take(slot), mproc::zombie_of(parent)) == table::count(
            t.take(slot),
            mproc::zombie_of(parent),
        ) - n,
    decreases n,
{
    let p = mproc::zombie_of(parent);
    if n > 0 {
        lemma_collected(t, parent, slot, (n - 1) as nat);
        let u = collected(t, parent, (n - 1) as nat);
        table::lemma_first(u, p);
        let i = table::first(u, p);
        if i >= slot {
            assert forall|k: int| 0 <= k < slot implies !p(#[trigger] u.take(slot)[k]) by {
                assert(!p(u[k]));
            }
            table::lemma_count_none(u.take(slot), p);
        }
        lemma_no_flags();
        assert(mproc::without(u, i).take(slot) =~= u.take(slot).update(i, MProc::empty_spec()));
        table::lemma_count_update(u.take(slot), p, i, MProc::empty_spec());
    }
}

/// No terminated child is forgotten: it is collected, with the pid and status it
/// left, once those in the slots before it have been.
pub proof fn law_every_zombie_is_collected(t: Seq<MProc>, parent: usize, slot: int)
    requires
        0 <= slot < t.len(),
        mproc::zombie_of(parent)(t[slot]),
    ensures
        mproc::first_zombie(
            collected(t, parent, table::count(t.take(slot), mproc::zombie_of(parent))),
            parent,
        ) == Some((slot, t[slot].pid, t[slot].exit_status)),
{
    let p = mproc::zombie_of(parent);
    let n = table::count(t.take(slot), p);
    lemma_collected(t, parent, slot, n);
    let u = collected(t, parent, n);
    assert forall|k: int| 0 <= k < slot implies !p(#[trigger] u[k]) by {
        if p(u[k]) {
            assert(p(u.take(slot)[k]));
            table::lemma_count_some(u.take(slot), p, k);
        }
    }
    table::lemma_first_is(u, p, slot);
}

/// Reaping frees the slot for a later child, and leaves nothing of the old one: the
/// next child takes the lowest slot that is free then.
pub proof fn law_reaping_frees_the_slot(t: Seq<MProc>, slot: int)
    requires
        t.len() == 32,
        FORK_POOL_BASE <= slot < 32,
    ensures
        mproc::free_slot(mproc::without(t, slot)) == if mproc::free_slot(t) < slot {
            mproc::free_slot(t)
        } else {
            slot
        },
        mproc::ids(mproc::without(t, slot), slot) is None,
        !mproc::without(t, slot)[slot].used(),
{
    lemma_no_flags();
    lemma_free_slot(t);
    let u = mproc::without(t, slot);
    let f = if mproc::free_slot(t) < slot {
        mproc::free_slot(t)
    } else {
        slot
    };
    assert forall|k: int| FORK_POOL_BASE <= k < f implies (#[trigger] u[k]).flags != 0 by {
        assert(t[k].flags != 0);
    }
    lemma_free_from_is(u, FORK_POOL_BASE as int, f);
}

/// A process dies once: killed, it has no pid, and a second kill finds nobody. A
/// system process is never marked.
pub proof fn law_kill_once(t: Seq<MProc>, slot: int)
    ensures
        mproc::kill_action(t, slot) is Terminate ==> {
            &&& mproc::kill_action(mproc::marked_dead(t, slot), slot) is NotFound
            &&& mproc::ids(mproc::marked_dead(t, slot), slot) is None
        },
        0 <= slot < t.len() && t[slot].alive() && t[slot].privileged() ==> mproc::kill_action(
            t,
            slot,
        ) == KillAction::SkipPrivileged,
{
    if 0 <= slot < t.len() {
        lemma_marks(t[slot].flags);
    }
}

/// Waiting can be set and cleared, and changes nothing else of a process.
pub proof fn law_waiting_round_trips(t: Seq<MProc>, slot: int)
    requires
        0 <= slot < t.len(),
    ensures
        mproc::with_waiting(t, slot, true)[slot].waits(),
        !mproc::with_waiting(t, slot, false)[slot].waits(),
        mproc::with_waiting(t, slot, true)[slot].alive() == t[slot].alive(),
        mproc::ids(mproc::with_waiting(t, slot, true), slot).is_some() == mproc::ids(
            t,
            slot,
        ).is_some(),
{
    lemma_marks(t[slot].flags);
}

} // verus!
