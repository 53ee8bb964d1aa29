//! The process table: who a process is, whose child it is, and what is left of
//! it once it is gone. A slot's index is the kernel's process number.
use vstd::prelude::*;
use crate::abi::com;
use crate::abi::com::{
    boot_endpoint, INIT_PROC_NR, NR_BOOT_PROCS, NR_STUB_PROCS, PM_PROC_NR, RS_PROC_NR,
};
use crate::abi::endpoint::Endpoint;
use crate::pm::laws;
use crate::table;

verus! {

/// Slots in the table.
pub const NR_MPROCS: usize = 32;

/// First slot a fork may take: the boot servers and the demo processes own those
/// below.
pub const FORK_POOL_BASE: usize = NR_BOOT_PROCS + NR_STUB_PROCS;

/// The slot holds a process.
pub const MF_IN_USE: u8 = 1;

/// A boot system process, which is never killed.
pub const MF_PRIV_PROC: u8 = 2;

/// Terminated, kept until its parent collects the exit status.
pub const MF_DEAD: u8 = 4;

/// A parent that waits for a child to exit.
pub const MF_WAITING: u8 = 8;

/// One process.
#[derive(Clone, Copy, Debug, PartialEq, Eq, Structural)]
pub struct MProc {
    pub pid: i32,
    pub parent_slot: usize,
    /// The endpoint under which this occupant of the slot is known.
    pub endpoint: Endpoint,
    /// Encoded exit status, once terminated.
    pub exit_status: i32,
    pub flags: u8,
}

impl MProc {
    /// A free slot.
    pub open spec fn empty_spec() -> MProc {
        MProc { pid: 0, parent_slot: 0, endpoint: 0, exit_status: 0, flags: 0 }
    }

    /// A free slot.
    #[verifier::when_used_as_spec(empty_spec)]
    pub fn empty() -> (e: MProc)
        ensures
            e == MProc::empty_spec(),
    {
        MProc { pid: 0, parent_slot: 0, endpoint: 0, exit_status: 0, flags: 0 }
    }

    /// The slot holds a process, alive or terminated.
    pub open spec fn used(self) -> bool {
        self.flags & MF_IN_USE != 0
    }

    /// The process has terminated.
    pub open spec fn gone(self) -> bool {
        self.flags & MF_DEAD != 0
    }

    /// The process is alive.
    pub open spec fn alive(self) -> bool {
        self.used() && !self.gone()
    }

    /// The process is never killed.
    pub open spec fn privileged(self) -> bool {
        self.flags & MF_PRIV_PROC != 0
    }

    /// The process waits for a child.
    pub open spec fn waits(self) -> bool {
        self.flags & MF_WAITING != 0
    }
}

/// What comes of a kill.
#[derive(Clone, Copy, Debug, PartialEq, Eq, Structural)]
pub enum KillAction {
    /// An ordinary process: terminate it.
    Terminate,
    /// A system process: refuse.
    SkipPrivileged,
    /// Nobody there: nothing to do.
    NotFound,
}

/// The process the system starts with in `slot`: the manager is pid 0 and its own
/// parent, the first user process is pid 1, the other servers take the next pids
/// in slot order under the reincarnation server (itself under the manager), and
/// the demo processes come after them under the first user process.
pub open spec fn boot_proc(slot: int) -> MProc {
    MProc {
        pid: (if slot == PM_PROC_NR {
            0
        } else if slot == INIT_PROC_NR {
            1
        } else if slot < INIT_PROC_NR {
            slot + 1
        } else {
            slot
        }) as i32,
        parent_slot: (if slot == PM_PROC_NR || slot == RS_PROC_NR {
            PM_PROC_NR
        } else if slot < NR_BOOT_PROCS {
            RS_PROC_NR
        } else {
            INIT_PROC_NR
        }) as usize,
        endpoint: com::boot_spec(slot) as i32,
        exit_status: 0,
        flags: if slot < NR_BOOT_PROCS {
            3
        } else {
            1
        },
    }
}

/// The table with the boot processes in their slots.
pub open spec fn seeded(t: Seq<MProc>) -> Seq<MProc> {
    Seq::new(
        t.len(),
        |i: int|
            if i < FORK_POOL_BASE {
                boot_proc(i)
            } else {
                t[i]
            },
    )
}

/// A process of the given slot at boot.
fn booted(pid: i32, parent_slot: usize, slot: usize, flags: u8) -> (e: MProc)
    requires
        slot < 32,
    ensures
        e == (MProc {
            pid,
            parent_slot,
            endpoint: com::boot_spec(slot as int) as i32,
            exit_status: 0,
            flags,
        }),
{
    MProc { pid, parent_slot, endpoint: boot_endpoint(slot as i32), exit_status: 0, flags }
}

/// Put the boot processes in their slots.
pub fn seed_in(t: &mut [MProc; 32])
    ensures
        final(t)@ == seeded(old(t)@),
{
    let pm: usize = PM_PROC_NR as usize;
    let rs: usize = RS_PROC_NR as usize;
    let init: usize = INIT_PROC_NR as usize;
    assert(1u8 | 2u8 == 3u8) by (bit_vector);
    t[pm] = booted(0, pm, pm, MF_IN_USE | MF_PRIV_PROC);
    t[init] = booted(1, rs, init, MF_IN_USE | MF_PRIV_PROC);
    let mut next_pid: i32 = 2;
    let mut slot: usize = 0;
    while slot < NR_BOOT_PROCS
        invariant
            slot <= 11,
            pm == 0,
            rs == 2,
            init == 10,
            1u8 | 2u8 == 3u8,
            next_pid == (if slot == 0 {
                2int
            } else if slot <= 10 {
                slot + 1
            } else {
                11
            }),
            t@[0] == boot_proc(0),
            t@[10] == boot_proc(10),
            forall|i: int| 0 <= i < slot ==> t@[i] == boot_proc(i),
            forall|i: int| 11 <= i < 32 ==> t@[i] == old(t)@[i],
        decreases 11 - slot,
    {
        if slot != pm && slot != init {
            let parent: usize = if slot == rs {
                pm
            } else {
                rs
            };
            t[slot] = booted(next_pid, parent, slot, MF_IN_USE | MF_PRIV_PROC);
            next_pid = next_pid + 1;
        }
        slot = slot + 1;
    }
    while slot < NR_BOOT_PROCS + NR_STUB_PROCS
        invariant
            11 <= slot <= 15,
            init == 10,
            next_pid == slot,
            forall|i: int| 0 <= i < slot ==> t@[i] == boot_proc(i),
            forall|i: int| slot <= i < 32 ==> t@[i] == old(t)@[i],
        decreases 15 - slot,
    {
        t[slot] = booted(next_pid, init, slot, MF_IN_USE);
        next_pid = next_pid + 1;
        slot = slot + 1;
    }
    assert(t@ =~= seeded(old(t)@));
}

/// The pid of `slot` and that of its parent; none for a slot without a live
/// process.
pub open spec fn ids(t: Seq<MProc>, slot: int) -> Option<(i32, i32)> {
    if 0 <= slot < t.len() && t[slot].alive() {
        Some((t[slot].pid, t[t[slot].parent_slot as int].pid))
    } else {
        None
    }
}

/// Look up a pid and the parent's.
pub fn getpid_in(t: &[MProc; 32], slot: usize) -> (r: Option<(i32, i32)>)
    requires
        slot < 32 && t@[slot as int].alive() ==> t@[slot as int].parent_slot < 32,
    ensures
        r == ids(t@, slot as int),
{
    if slot >= 32 {
        return None;
    }
    let e = t[slot];
    if e.flags & MF_IN_USE == 0 || e.flags & MF_DEAD != 0 {
        return None;
    }
    Some((e.pid, t[e.parent_slot].pid))
}

/// What killing `slot` comes to.
pub open spec fn kill_action(t: Seq<MProc>, slot: int) -> KillAction {
    if !(0 <= slot < t.len() && t[slot].alive()) {
        KillAction::NotFound
    } else if t[slot].privileged() {
        KillAction::SkipPrivileged
    } else {
        KillAction::Terminate
    }
}

/// The table with `slot` marked as terminated.
pub open spec fn marked_dead(t: Seq<MProc>, slot: int) -> Seq<MProc> {
    t.update(slot, MProc { flags: t[slot].flags | MF_DEAD, ..t[slot] })
}

/// Decide what killing `slot` comes to, and mark an ordinary process dead.
pub fn handle_kill_in(t: &mut [MProc; 32], slot: usize) -> (a: KillAction)
    ensures
        a == kill_action(old(t)@, slot as int),
        final(t)@ == (if a is Terminate {
            marked_dead(old(t)@, slot as int)
        } else {
            old(t)@
        }),
{
    if slot >= 32 {
        return KillAction::NotFound;
    }
    let flags: u8 = t[slot].flags;
    if flags & MF_IN_USE == 0 || flags & MF_DEAD != 0 {
        return KillAction::NotFound;
    }
    if flags & MF_PRIV_PROC != 0 {
        return KillAction::SkipPrivileged;
    }
    t[slot].flags = flags | MF_DEAD;
    assert(t@ =~= marked_dead(old(t)@, slot as int));
    KillAction::Terminate
}

/// Whether `slot` holds a process, alive or terminated.
pub fn in_use_in(t: &[MProc; 32], slot: usize) -> (b: bool)
    ensures
        b == (slot < 32 && t@[slot as int].used()),
{
    slot < 32 && t[slot].flags & MF_IN_USE != 0
}

/// The parent's slot.
pub fn parent_of_in(t: &[MProc; 32], slot: usize) -> (r: Option<usize>)
    ensures
        r == (if slot < 32 && t@[slot as int].used() {
            Some(t@[slot as int].parent_slot)
        } else {
            None
        }),
{
    if slot < 32 && t[slot].flags & MF_IN_USE != 0 {
        Some(t[slot].parent_slot)
    } else {
        None
    }
}

/// The endpoint of the process in `slot`.
pub fn endpoint_of_in(t: &[MProc; 32], slot: usize) -> (r: Option<Endpoint>)
    ensures
        r == (if slot < 32 && t@[slot as int].used() {
            Some(t@[slot as int].endpoint)
        } else {
            None
        }),
{
    if slot < 32 && t[slot].flags & MF_IN_USE != 0 {
        Some(t[slot].endpoint)
    } else {
        None
    }
}

/// The slots nothing is known of.
pub open spec fn vacant() -> spec_fn(MProc) -> bool {
    |e: MProc| e.flags == 0
}

/// The first free slot of the fork pool; the table's length when there is none.
pub open spec fn free_slot(t: Seq<MProc>) -> int {
    table::first_from(t, vacant(), FORK_POOL_BASE as int)
}

/// The slot the next child gets.
pub fn alloc_slot_in(t: &[MProc; 32]) -> (r: Option<usize>)
    ensures
        match r {
            Some(s) => s == free_slot(t@) && FORK_POOL_BASE <= s < 32 && t@[s as int].flags == 0,
            None => free_slot(t@) == 32,
        },
{
    let mut slot: usize = FORK_POOL_BASE;
    while slot < 32
        invariant
            15 <= slot <= 32,
            free_slot(t@) == table::first_from(t@, vacant(), slot as int),
        decreases 32 - slot,
    {
        if t[slot].flags == 0 {
            return Some(slot);
        }
        slot = slot + 1;
    }
    None
}

/// The highest pid among the slots in `t` that are taken, if one is.
pub open spec fn highest_pid(t: Seq<MProc>) -> Option<i32>
    decreases t.len(),
{
    if t.len() == 0 {
        None
    } else {
        let rest = highest_pid(t.drop_last());
        if t.last().flags != 0 && (rest is None || t.last().pid > rest->0) {
            Some(t.last().pid)
        } else {
            rest
        }
    }
}

/// The pid below the next one: the highest that is taken, or 0 when none is.
pub open spec fn max_pid(t: Seq<MProc>) -> int {
    match highest_pid(t) {
        Some(pid) => pid as int,
        None => 0,
    }
}

/// The next pid: one past the highest anyone holds, or 1 when nobody holds any.
pub fn alloc_pid_in(t: &[MProc; 32]) -> (pid: i32)
    requires
        max_pid(t@) < i32::MAX,
    ensures
        pid == max_pid(t@) + 1,
{
    let mut highest: Option<i32> = None;
    let mut i: usize = 0;
    while i < 32
        invariant
            i <= 32,
            highest == highest_pid(t@.take(i as int)),
        decreases 32 - i,
    {
        assert(t@.take(i + 1).drop_last() =~= t@.take(i as int));
        if t[i].flags != 0 {
            let above: bool = match highest {
                Some(pid) => t[i].pid > pid,
                None => true,
            };
            if above {
                highest = Some(t[i].pid);
            }
        }
        i = i + 1;
    }
    assert(t@.take(32) =~= t@);
    match highest {
        Some(pid) => pid + 1,
        None => 1,
    }
}

/// The table with a child in `slot`.
pub open spec fn with_child(t: Seq<MProc>, slot: int, parent_slot: usize, e: Endpoint) -> Seq<
    MProc,
> {
    t.update(
        slot,
        MProc {
            pid: (max_pid(t) + 1) as i32,
            parent_slot,
            endpoint: e,
            exit_status: 0,
            flags: MF_IN_USE,
        },
    )
}

/// Record a child in `slot` and give it a pid.
pub fn set_child_in(t: &mut [MProc; 32], slot: usize, parent_slot: usize, endpoint: Endpoint) -> (pid:
    i32)
    requires
        slot < 32,
        max_pid(old(t)@) < i32::MAX,
    ensures
        pid == max_pid(old(t)@) + 1,
        final(t)@ == with_child(old(t)@, slot as int, parent_slot, endpoint),
{
    let pid: i32 = alloc_pid_in(t);
    t[slot] = MProc { pid, parent_slot, endpoint, exit_status: 0, flags: MF_IN_USE };
    pid
}

/// The table with `slot` terminated with `status`.
pub open spec fn with_zombie(t: Seq<MProc>, slot: int, status: i32) -> Seq<MProc> {
    if 0 <= slot < t.len() {
        t.update(
            slot,
            MProc { exit_status: status, flags: t[slot].flags | MF_DEAD, ..t[slot] },
        )
    } else {
        t
    }
}

/// Mark `slot` terminated with `status`.
pub fn set_zombie_in(t: &mut [MProc; 32], slot: usize, status: i32)
    ensures
        final(t)@ == with_zombie(old(t)@, slot as int, status),
{
    if slot < 32 {
        t[slot].exit_status = status;
        t[slot].flags = t[slot].flags | MF_DEAD;
        assert(t@ =~= with_zombie(old(t)@, slot as int, status));
    }
}

/// The table with `slot` waiting or not.
pub open spec fn with_waiting(t: Seq<MProc>, slot: int, waiting: bool) -> Seq<MProc> {
    if 0 <= slot < t.len() {
        t.update(
            slot,
            MProc {
                flags: if waiting {
                    t[slot].flags | MF_WAITING
                } else {
                    t[slot].flags & !MF_WAITING
                },
                ..t[slot]
            },
        )
    } else {
        t
    }
}

/// Mark `slot` waiting or not.
pub fn set_waiting_in(t: &mut [MProc; 32], slot: usize, waiting: bool)
    ensures
        final(t)@ == with_waiting(old(t)@, slot as int, waiting),
{
    if slot < 32 {
        if waiting {
            t[slot].flags = t[slot].flags | MF_WAITING;
        } else {
            t[slot].flags = t[slot].flags & !MF_WAITING;
        }
        assert(t@ =~= with_waiting(old(t)@, slot as int, waiting));
    }
}

/// Whether `slot` waits for a child.
pub fn is_waiting_in(t: &[MProc; 32], slot: usize) -> (b: bool)
    ensures
        b == (slot < 32 && t@[slot as int].waits()),
{
    slot < 32 && t[slot].flags & MF_WAITING != 0
}

/// The terminated children of `parent`.
pub open spec fn zombie_of(parent: usize) -> spec_fn(MProc) -> bool {
    |e: MProc| e.used() && e.gone() && e.parent_slot == parent
}

/// The first terminated child: its slot, pid and exit status.
pub open spec fn first_zombie(t: Seq<MProc>, parent: usize) -> Option<(int, i32, i32)> {
    let i = table::first(t, zombie_of(parent));
    if i < t.len() {
        Some((i, t[i].pid, t[i].exit_status))
    } else {
        None
    }
}

/// Find a terminated child of `parent_slot`.
pub fn find_zombie_child_in(t: &[MProc; 32], parent_slot: usize) -> (r: Option<(usize, i32, i32)>)
    ensures
        match r {
            Some((slot, pid, status)) => slot < 32 && first_zombie(t@, parent_slot) == Some(
                (slot as int, pid, status),
            ),
            None => first_zombie(t@, parent_slot) is None,
        },
{
    let mut i: usize = 0;
    while i < 32
        invariant
            i <= 32,
            table::first(t@, zombie_of(parent_slot)) == table::first_from(
                t@,
                zombie_of(parent_slot),
                i as int,
            ),
        decreases 32 - i,
    {
        let e = t[i];
        if e.flags & MF_IN_USE != 0 && e.flags & MF_DEAD != 0 && e.parent_slot == parent_slot {
            return Some((i, e.pid, e.exit_status));
        }
        i = i + 1;
    }
    None
}

/// Slot `i` is a live child of `parent`, which is not its own child.
pub open spec fn live_child(t: Seq<MProc>, parent: usize, i: int) -> bool {
    i != parent && t[i].alive() && t[i].parent_slot == parent
}

/// `parent` has a live child.
pub open spec fn has_child(t: Seq<MProc>, parent: usize) -> bool {
    exists|i: int| 0 <= i < t.len() && #[trigger] live_child(t, parent, i)
}

/// Whether `parent_slot` has a live child.
pub fn has_live_child_in(t: &[MProc; 32], parent_slot: usize) -> (b: bool)
    ensures
        b == has_child(t@, parent_slot),
{
    let mut i: usize = 0;
    while i < 32
        invariant
            i <= 32,
            forall|k: int| 0 <= k < i ==> !live_child(t@, parent_slot, k),
        decreases 32 - i,
    {
        let e = t[i];
        if i != parent_slot && e.flags & MF_IN_USE != 0 && e.flags & MF_DEAD == 0 && e.parent_slot
            == parent_slot {
            assert(live_child(t@, parent_slot, i as int));
            return true;
        }
        i = i + 1;
    }
    false
}

/// The table with `slot` free.
pub open spec fn without(t: Seq<MProc>, slot: int) -> Seq<MProc> {
    if 0 <= slot < t.len() {
        t.update(slot, MProc::empty_spec())
    } else {
        t
    }
}

/// Free `slot`.
pub fn cleanup_in(t: &mut [MProc; 32], slot: usize)
    ensures
        final(t)@ == without(old(t)@, slot as int),
{
    if slot < 32 {
        t[slot] = MProc::empty();
    }
}

/// The table a process manager keeps.
pub struct Procs {
    pub slots: [MProc; 32],
}

impl Procs {
    /// Every process has a slot for a parent, no pid is negative, and no two
    /// processes share one.
    pub open spec fn wf(self) -> bool {
        laws::wf(self.slots@)
    }

    /// A table nobody is in yet.
    pub fn new() -> (p: Procs)
        ensures
            p.wf(),
            p.slots@ == Seq::new(32, |i: int| MProc::empty_spec()),
    {
        let p = Procs { slots: [MProc::empty();32] };
        assert(p.slots@ =~= Seq::new(32, |i: int| MProc::empty_spec()));
        proof {
            laws::lemma_no_flags();
        }
        p
    }
}

/// Put the boot processes in their slots of a new table.
pub fn seed(p: &mut Procs)
    requires
        old(p).wf(),
        forall|i: int| FORK_POOL_BASE <= i < 32 ==> old(p).slots@[i].flags == 0,
    ensures
        final(p).wf(),
        final(p).slots@ == seeded(old(p).slots@),
{
    seed_in(&mut p.slots);
    proof {
        laws::law_seed_is_wf(old(p).slots@);
    }
}

/// Look up a pid and the parent's.
pub fn getpid(p: &Procs, slot: usize) -> (r: Option<(i32, i32)>)
    requires
        p.wf(),
    ensures
        r == ids(p.slots@, slot as int),
{
    getpid_in(&p.slots, slot)
}

/// Decide what killing `slot` comes to, and mark an ordinary process dead.
pub fn handle_kill(p: &mut Procs, slot: usize) -> (a: KillAction)
    requires
        old(p).wf(),
    ensures
        final(p).wf(),
        a == kill_action(old(p).slots@, slot as int),
        final(p).slots@ == (if a is Terminate {
            marked_dead(old(p).slots@, slot as int)
        } else {
            old(p).slots@
        }),
{
    proof {
        laws::law_updates_keep_wf(p.slots@, slot as int, 0, false);
    }
    handle_kill_in(&mut p.slots, slot)
}

/// Whether `slot` holds a process.
pub fn in_use(p: &Procs, slot: usize) -> (b: bool)
    ensures
        b == (slot < 32 && p.slots@[slot as int].used()),
{
    in_use_in(&p.slots, slot)
}

/// The parent's slot.
pub fn parent_of(p: &Procs, slot: usize) -> (r: Option<usize>)
    ensures
        r == (if slot < 32 && p.slots@[slot as int].used() {
            Some(p.slots@[slot as int].parent_slot)
        } else {
            None
        }),
{
    parent_of_in(&p.slots, slot)
}

/// The endpoint of the process in `slot`.
pub fn endpoint_of(p: &Procs, slot: usize) -> (r: Option<Endpoint>)
    ensures
        r == (if slot < 32 && p.slots@[slot as int].used() {
            Some(p.slots@[slot as int].endpoint)
        } else {
            None
        }),
{
    endpoint_of_in(&p.slots, slot)
}

/// The slot the next child gets.
pub fn alloc_slot(p: &Procs) -> (r: Option<usize>)
    ensures
        match r {
            Some(s) => s == free_slot(p.slots@) && FORK_POOL_BASE <= s < 32
                && p.slots@[s as int].flags == 0,
            None => free_slot(p.slots@) == 32,
        },
{
    alloc_slot_in(&p.slots)
}

/// Record a child in a free slot and give it a pid.
pub fn set_child(p: &mut Procs, slot: usize, parent_slot: usize, endpoint: Endpoint) -> (pid: i32)
    requires
        old(p).wf(),
        slot < 32,
        parent_slot < 32,
        max_pid(old(p).slots@) < i32::MAX,
    ensures
        final(p).wf(),
        pid == max_pid(old(p).slots@) + 1,
        final(p).slots@ == with_child(old(p).slots@, slot as int, parent_slot, endpoint),
{
    proof {
        laws::law_child_keeps_wf(p.slots@, slot as int, parent_slot, endpoint);
    }
    set_child_in(&mut p.slots, slot, parent_slot, endpoint)
}

/// Mark `slot` terminated with `status`.
pub fn set_zombie(p: &mut Procs, slot: usize, status: i32)
    requires
        old(p).wf(),
    ensures
        final(p).wf(),
        final(p).slots@ == with_zombie(old(p).slots@, slot as int, status),
{
    proof {
        laws::law_updates_keep_wf(p.slots@, slot as int, status, false);
    }
    set_zombie_in(&mut p.slots, slot, status)
}

/// Mark `slot` waiting or not.
pub fn set_waiting(p: &mut Procs, slot: usize, waiting: bool)
    requires
        old(p).wf(),
    ensures
        final(p).wf(),
        final(p).slots@ == with_waiting(old(p).slots@, slot as int, waiting),
{
    proof {
        laws::law_updates_keep_wf(p.slots@, slot as int, 0, waiting);
    }
    set_waiting_in(&mut p.slots, slot, waiting)
}

/// Whether `slot` waits for a child.
pub fn is_waiting(p: &Procs, slot: usize) -> (b: bool)
    ensures
        b == (slot < 32 && p.slots@[slot as int].waits()),
{
    is_waiting_in(&p.slots, slot)
}

/// Find a terminated child of `parent_slot`.
pub fn find_zombie_child(p: &Procs, parent_slot: usize) -> (r: Option<(usize, i32, i32)>)
    ensures
        match r {
            Some((slot, pid, status)) => slot < 32 && first_zombie(p.slots@, parent_slot) == Some(
                (slot as int, pid, status),
            ),
            None => first_zombie(p.slots@, parent_slot) is None,
        },
{
    find_zombie_child_in(&p.slots, parent_slot)
}

/// Whether `parent_slot` has a live child.
pub fn has_live_child(p: &Procs, parent_slot: usize) -> (b: bool)
    ensures
        b == has_child(p.slots@, parent_slot),
{
    has_live_child_in(&p.slots, parent_slot)
}

/// Free `slot`.
pub fn cleanup(p: &mut Procs, slot: usize)
    requires
        old(p).wf(),
    ensures
        final(p).wf(),
        final(p).slots@ == without(old(p).slots@, slot as int),
{
    proof {
        laws::law_updates_keep_wf(p.slots@, slot as int, 0, false);
    }
    cleanup_in(&mut p.slots, slot)
}

} // verus!
