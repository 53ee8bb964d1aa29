//! A server's grant table: issuing grants, revoking them, and knowing when the
//! kernel has to be told where the table lies.
//!
//! The pool is an ordinary value that the server owns. The kernel is told one
//! address; a pool that has moved since registers again before it is used.
use vstd::prelude::*;
use crate::abi::callnr::SYS_SETGRANT;
use crate::abi::endpoint::{Endpoint, NONE};
use crate::abi::errno::{EINVAL, ENOMEM, OK};
use crate::abi::grant;
use crate::abi::grant::{
    grant_id, grant_idx, grant_seq, grant_valid, GrantEntry, CPF_ACCESS_MASK, CPF_DIRECT, CPF_MAGIC,
    CPF_USED, CPF_VALID, GRANT_MAX_IDX, GRANT_MAX_SEQ,
};
use crate::abi::message::Message;
use crate::rt::payload;
use crate::rt::payload::{wr_i32, wr_u64};

verus! {

/// Whether a slot holds a live grant.
pub open spec fn in_use(e: GrantEntry) -> bool {
    e.flags & CPF_USED != 0
}

/// The first free slot at or after `i`; the table's length when there is none.
pub open spec fn free_from(t: Seq<GrantEntry>, i: int) -> int
    decreases t.len() - i,
{
    if i >= t.len() || !in_use(t[i]) {
        i
    } else {
        free_from(t, i + 1)
    }
}

/// The first free slot.
pub open spec fn first_free(t: Seq<GrantEntry>) -> int {
    free_from(t, 0)
}

/// Why a grant cannot be issued; `OK` when it can. A malformed request is
/// refused ahead of a full table.
pub open spec fn issue_fault(t: Seq<GrantEntry>, flags: u32, addr: u64, len: u64) -> i32 {
    if addr == 0 || len == 0 || addr + len > u64::MAX || flags & CPF_ACCESS_MASK == 0 {
        EINVAL
    } else if first_free(t) >= t.len() {
        ENOMEM
    } else {
        OK
    }
}

/// The entry a grant fills its slot with.
pub open spec fn issued_entry(
    flags: u32,
    seq: u32,
    who_to: Endpoint,
    who_from: Endpoint,
    addr: u64,
    len: u64,
) -> GrantEntry {
    GrantEntry { flags: flags | CPF_USED | CPF_VALID, seq, who_to, who_from, addr, len }
}

/// The sequence number after `seq`.
pub open spec fn seq_after(seq: int) -> int {
    (seq + 1) % 0x800
}

/// `gid` names a live grant of the table: its slot exists, is in use, and
/// carries the id's sequence number.
pub open spec fn live(t: Seq<GrantEntry>, gid: i32) -> bool {
    let idx = grant::grant_idx_spec(gid as int);
    &&& gid >= 0
    &&& idx < t.len()
    &&& in_use(t[idx])
    &&& t[idx].seq == grant::grant_seq_spec(gid as int)
}

/// The table with the slot `gid` names cleared.
pub open spec fn cleared(t: Seq<GrantEntry>, gid: i32) -> Seq<GrantEntry> {
    t.update(grant::grant_idx_spec(gid as int), GrantEntry::empty_spec())
}

/// How many slots hold a live grant.
pub open spec fn used_count(t: Seq<GrantEntry>) -> nat
    decreases t.len(),
{
    if t.len() == 0 {
        0
    } else {
        used_count(t.drop_last()) + if in_use(t.last()) {
            1nat
        } else {
            0nat
        }
    }
}

/// What registering a table that lies at `at` comes to when the kernel knows it at `known`
/// and answered `rc`, and where the kernel knows it then.
pub open spec fn known_at(known: usize, at: usize, rc: i32) -> (Result<(), i32>, usize) {
    if at == known || rc == OK {
        (Ok(()), at)
    } else {
        (Err(rc), known)
    }
}

/// A grant table and the sequence number of its next grant.
#[verifier::ext_equal]
pub ghost struct Book {
    pub entries: Seq<GrantEntry>,
    pub next_seq: u32,
}

/// What issuing a grant returns, and the book after it.
pub open spec fn issue(
    b: Book,
    flags: u32,
    who_to: Endpoint,
    who_from: Endpoint,
    addr: u64,
    len: u64,
) -> (Result<i32, i32>, Book) {
    let fault = issue_fault(b.entries, flags, addr, len);
    let idx = first_free(b.entries);
    if fault != OK {
        (Err(fault), b)
    } else {
        (
            Ok(grant::grant_id_spec((idx as u32) as int, b.next_seq as int) as i32),
            Book {
                entries: b.entries.update(
                    idx,
                    issued_entry(flags, b.next_seq, who_to, who_from, addr, len),
                ),
                next_seq: seq_after(b.next_seq as int) as u32,
            },
        )
    }
}

/// What revoking a grant returns, and the book after it.
pub open spec fn revoke(b: Book, gid: i32) -> (Result<(), i32>, Book) {
    if live(b.entries, gid) {
        (Ok(()), Book { entries: cleared(b.entries, gid), ..b })
    } else {
        (Err(EINVAL), b)
    }
}

/// What issuing a grant returns, and the book after it, when the table was to be
/// registered first: the error of a failed registration changes nothing.
pub open spec fn issue_when(
    b: Book,
    registered: Result<(), i32>,
    flags: u32,
    who_to: Endpoint,
    who_from: Endpoint,
    addr: u64,
    len: u64,
) -> (Result<i32, i32>, Book) {
    match registered {
        Err(e) => (Err(e), b),
        Ok(_) => issue(b, flags, who_to, who_from, addr, len),
    }
}

/// What revoking a grant returns, and the book after it, when the table was to be
/// registered first. A table that was never registered has nothing to revoke.
pub open spec fn revoke_when(
    b: Book,
    granting: bool,
    registered: Result<(), i32>,
    gid: i32,
) -> (Result<(), i32>, Book) {
    if !granting {
        (Err(EINVAL), b)
    } else {
        match registered {
            Err(e) => (Err(e), b),
            Ok(_) => revoke(b, gid),
        }
    }
}

/// Claim the first free slot and write a grant into it.
pub fn alloc_grant_in(
    entries: &mut [GrantEntry],
    next_seq: &mut u32,
    flags: u32,
    who_to: Endpoint,
    who_from: Endpoint,
    addr: u64,
    len: u64,
) -> (r: Result<i32, i32>)
    requires
        *old(next_seq) < u32::MAX,
    ensures
        (r, Book { entries: final(entries)@, next_seq: *final(next_seq) }) == issue(
            Book { entries: old(entries)@, next_seq: *old(next_seq) },
            flags,
            who_to,
            who_from,
            addr,
            len,
        ),
{
    if addr == 0 || len == 0 {
        return Err(EINVAL);
    }
    if addr.checked_add(len).is_none() {
        return Err(EINVAL);
    }
    if flags & CPF_ACCESS_MASK == 0 {
        return Err(EINVAL);
    }
    let n: usize = entries.len();
    let mut idx: usize = 0;
    while idx < n && entries[idx].flags & CPF_USED != 0
        invariant
            n == entries@.len(),
            idx <= n,
            entries@ == old(entries)@,
            first_free(entries@) == free_from(entries@, idx as int),
        decreases n - idx,
    {
        idx = idx + 1;
    }
    if idx == n {
        return Err(ENOMEM);
    }
    let seq: u32 = *next_seq;
    let after: u32 = (seq + 1) & GRANT_MAX_SEQ;
    assert(after == (seq + 1) % 0x800) by (bit_vector)
        requires
            after == (seq + 1) as u32 & 0x7FF,
            seq < 0xFFFF_FFFF,
    ;
    *next_seq = after;
    entries[idx] = GrantEntry {
        flags: flags | CPF_USED | CPF_VALID,
        seq,
        who_to,
        who_from,
        addr,
        len,
    };
    Ok(grant_id(idx as u32, seq))
}

/// Clear the slot `gid` names, if the id matches the grant living there.
pub fn revoke_in(entries: &mut [GrantEntry], gid: i32) -> (r: Result<(), i32>)
    ensures
        r == (if live(old(entries)@, gid) {
            Ok::<(), i32>(())
        } else {
            Err(EINVAL)
        }),
        final(entries)@ == (if live(old(entries)@, gid) {
            cleared(old(entries)@, gid)
        } else {
            old(entries)@
        }),
{
    if !grant_valid(gid) {
        return Err(EINVAL);
    }
    let idx: usize = grant_idx(gid) as usize;
    if idx >= entries.len() {
        return Err(EINVAL);
    }
    if entries[idx].flags & CPF_USED == 0 || entries[idx].seq != grant_seq(gid) {
        return Err(EINVAL);
    }
    entries[idx] = GrantEntry::empty();
    Ok(())
}

/// Count the live grants in a table.
pub fn used_in(entries: &[GrantEntry]) -> (n: usize)
    ensures
        n == used_count(entries@),
{
    let mut n: usize = 0;
    let mut i: usize = 0;
    while i < entries.len()
        invariant
            n <= i <= entries@.len(),
            n == used_count(entries@.take(i as int)),
        decreases entries@.len() - i,
    {
        assert(entries@.take(i + 1).drop_last() =~= entries@.take(i as int));
        if entries[i].flags & CPF_USED != 0 {
            n = n + 1;
        }
        i = i + 1;
    }
    assert(entries@.take(i as int) =~= entries@);
    n
}

/// A server's grant table, the sequence number of its next grant, and the
/// address at which the kernel was last told it lies (0 before that).
pub struct GrantPool<const N: usize> {
    pub entries: [GrantEntry; N],
    pub next_seq: u32,
    pub registered_at: usize,
}

impl<const N: usize> Default for GrantPool<N> {
    fn default() -> (p: Self)
        ensures
            p.wf(),
            p.registered_at == 0,
            p.next_seq == 0,
            p.entries@ == Seq::new(N as nat, |i: int| GrantEntry::empty_spec()),
    {
        Self::new()
    }
}

impl<const N: usize> GrantPool<N> {
    /// The sequence number fits its field.
    pub open spec fn wf(self) -> bool {
        self.next_seq <= GRANT_MAX_SEQ
    }

    /// An empty pool: nothing is registered until the first grant is issued.
    pub fn new() -> (p: Self)
        ensures
            p.wf(),
            p.registered_at == 0,
            p.next_seq == 0,
            p.entries@ == Seq::new(N as nat, |i: int| GrantEntry::empty_spec()),
    {
        let p = Self { entries: [GrantEntry::empty();N], next_seq: 0, registered_at: 0 };
        assert(p.entries@ =~= Seq::new(N as nat, |i: int| GrantEntry::empty_spec()));
        p
    }

    /// The kernel call needed before the pool, now at address `at`, is used: none
    /// when that is where it was registered.
    pub fn registration(&self, at: usize) -> (m: Option<Message>)
        ensures
            match m {
                None => at == self.registered_at,
                Some(m) => {
                    &&& at != self.registered_at
                    &&& m.m_source == 0
                    &&& m.m_type == SYS_SETGRANT
                    &&& m.payload@ == setgrant_payload(at as u64, N as i32)
                },
            },
    {
        if at == self.registered_at {
            return None;
        }
        Some(sys_setgrant(at as u64, N as i32))
    }

    /// Note the result of that call. `rc` is not looked at when no call was
    /// needed.
    pub fn ensure_registered(&mut self, at: usize, rc: i32) -> (r: Result<(), i32>)
        ensures
            (r, final(self).registered_at) == known_at(old(self).registered_at, at, rc),
            final(self).entries == old(self).entries,
            final(self).next_seq == old(self).next_seq,
    {
        if at == self.registered_at {
            return Ok(());
        }
        if rc != OK {
            return Err(rc);
        }
        self.registered_at = at;
        Ok(())
    }

    /// Grant `who_to` access to `[addr, addr + len)` in this process's own address
    /// space. `registered` is what [`GrantPool::ensure_registered`] returned; its
    /// error is returned verbatim.
    pub fn grant_direct(
        &mut self,
        registered: Result<(), i32>,
        who_to: Endpoint,
        addr: u64,
        len: u64,
        access: u32,
    ) -> (r: Result<i32, i32>)
        requires
            old(self).wf(),
        ensures
            final(self).wf(),
            final(self).registered_at == old(self).registered_at,
            (r, final(self).book()) == old(self).issued(
                registered,
                CPF_DIRECT | access,
                who_to,
                NONE,
                addr,
                len,
            ),
    {
        self.issue(registered, CPF_DIRECT | access, who_to, NONE, addr, len)
    }

    /// Grant `who_to` access to `[addr, addr + len)` in `who_from`'s address
    /// space.
    pub fn grant_magic(
        &mut self,
        registered: Result<(), i32>,
        who_to: Endpoint,
        who_from: Endpoint,
        addr: u64,
        len: u64,
        access: u32,
    ) -> (r: Result<i32, i32>)
        requires
            old(self).wf(),
        ensures
            final(self).wf(),
            final(self).registered_at == old(self).registered_at,
            (r, final(self).book()) == old(self).issued(
                registered,
                CPF_MAGIC | access,
                who_to,
                who_from,
                addr,
                len,
            ),
    {
        self.issue(registered, CPF_MAGIC | access, who_to, who_from, addr, len)
    }

    /// The pool's table and sequence number.
    pub open spec fn book(self) -> Book {
        Book { entries: self.entries@, next_seq: self.next_seq }
    }

    /// What issuing a grant from this pool returns, and the book after it.
    pub open spec fn issued(
        self,
        registered: Result<(), i32>,
        flags: u32,
        who_to: Endpoint,
        who_from: Endpoint,
        addr: u64,
        len: u64,
    ) -> (Result<i32, i32>, Book) {
        issue_when(self.book(), registered, flags, who_to, who_from, addr, len)
    }

    /// What revoking a grant of this pool returns, and the book after it.
    pub open spec fn revoked(self, registered: Result<(), i32>, gid: i32) -> (
        Result<(), i32>,
        Book,
    ) {
        revoke_when(self.book(), self.registered_at != 0, registered, gid)
    }

    fn issue(
        &mut self,
        registered: Result<(), i32>,
        flags: u32,
        who_to: Endpoint,
        who_from: Endpoint,
        addr: u64,
        len: u64,
    ) -> (r: Result<i32, i32>)
        requires
            old(self).wf(),
        ensures
            final(self).wf(),
            final(self).registered_at == old(self).registered_at,
            (r, final(self).book()) == old(self).issued(
                registered,
                flags,
                who_to,
                who_from,
                addr,
                len,
            ),
    {
        match registered {
            Err(e) => Err(e),
            Ok(_) => alloc_grant_in(
                &mut self.entries,
                &mut self.next_seq,
                flags,
                who_to,
                who_from,
                addr,
                len,
            ),
        }
    }

    /// Revoke `gid`, freeing its slot for reuse. A pool that never granted has
    /// nothing to revoke; one that moved must register before its slot is
    /// cleared, or the kernel would go on honouring the copy it knows.
    pub fn revoke(&mut self, registered: Result<(), i32>, gid: i32) -> (r: Result<(), i32>)
        requires
            old(self).wf(),
        ensures
            final(self).wf(),
            final(self).registered_at == old(self).registered_at,
            (r, final(self).book()) == old(self).revoked(registered, gid),
    {
        if self.registered_at == 0 {
            return Err(EINVAL);
        }
        match registered {
            Err(e) => Err(e),
            Ok(_) => revoke_in(&mut self.entries, gid),
        }
    }

    /// Number of slots holding a live grant.
    pub fn used(&self) -> (n: usize)
        ensures
            n == used_count(self.entries@),
    {
        used_in(self.entries.as_slice())
    }
}

/// The payload that names a grant table.
pub open spec fn setgrant_payload(addr: u64, entries: i32) -> Seq<u8> {
    payload::with_u64(payload::with_i32(payload::zero_payload(), 4, entries), 16, addr)
}

/// Build the call that names `addr` as this process's grant table.
pub fn sys_setgrant(addr: u64, entries: i32) -> (m: Message)
    ensures
        m.m_source == 0,
        m.m_type == SYS_SETGRANT,
        m.payload@ == setgrant_payload(addr, entries),
{
    let mut m = Message::request(SYS_SETGRANT);
    wr_i32(&mut m, 4, entries);
    wr_u64(&mut m, 16, addr);
    m
}

proof fn lemma_free_from(t: Seq<GrantEntry>, i: int)
    requires
        0 <= i <= t.len(),
    ensures
        i <= free_from(t, i) <= t.len(),
        free_from(t, i) < t.len() ==> !in_use(t[free_from(t, i)]),
        forall|k: int| i <= k < free_from(t, i) ==> in_use(#[trigger] t[k]),
    decreases t.len() - i,
{
    if i < t.len() && in_use(t[i]) {
        lemma_free_from(t, i + 1);
    }
}

proof fn lemma_free_is(t: Seq<GrantEntry>, i: int, idx: int)
    requires
        0 <= i <= idx < t.len(),
        !in_use(t[idx]),
        forall|k: int| i <= k < idx ==> in_use(#[trigger] t[k]),
    ensures
        free_from(t, i) == idx,
    decreases idx - i,
{
    if i < idx {
        assert(in_use(t[i]));
        lemma_free_is(t, i + 1, idx);
    }
}

/// An issued entry is in use and valid, and keeps the flags asked for.
pub proof fn law_issued_entry_is_live(
    flags: u32,
    seq: u32,
    who_to: Endpoint,
    who_from: Endpoint,
    addr: u64,
    len: u64,
)
    ensures
        in_use(issued_entry(flags, seq, who_to, who_from, addr, len)),
        issued_entry(flags, seq, who_to, who_from, addr, len).flags & CPF_VALID != 0,
        issued_entry(flags, seq, who_to, who_from, addr, len).flags & flags == flags,
        !in_use(GrantEntry::empty_spec()),
{
    assert((flags | 0x100u32 | 0x1000u32) & 0x100u32 != 0) by (bit_vector);
    assert((flags | 0x100u32 | 0x1000u32) & 0x1000u32 != 0) by (bit_vector);
    assert((flags | 0x100u32 | 0x1000u32) & flags == flags) by (bit_vector);
    assert(0u32 & 0x100u32 == 0) by (bit_vector);
}

/// The table after issuing `e` into the first free slot.
pub open spec fn issued_table(t: Seq<GrantEntry>, e: GrantEntry) -> Seq<GrantEntry> {
    t.update(first_free(t), e)
}

/// Revoking undoes issuing: the slot is free again and the id names nothing, so
/// revoking twice fails.
pub proof fn law_revoke_kills(t: Seq<GrantEntry>, gid: i32)
    requires
        live(t, gid),
    ensures
        !live(cleared(t, gid), gid),
        !in_use(cleared(t, gid)[grant::grant_idx_spec(gid as int)]),
        forall|k: int|
            0 <= k < t.len() && k != grant::grant_idx_spec(gid as int) ==> cleared(t, gid)[k]
                == #[trigger] t[k],
{
    assert(0u32 & 0x100u32 == 0) by (bit_vector);
}

/// One thing that can be done to a book.
pub ghost enum Step {
    Issue { flags: u32, who_to: Endpoint, who_from: Endpoint, addr: u64, len: u64 },
    Revoke { gid: i32 },
}

/// The book after one step.
pub open spec fn stepped(b: Book, s: Step) -> Book {
    match s {
        Step::Issue { flags, who_to, who_from, addr, len } => issue(
            b,
            flags,
            who_to,
            who_from,
            addr,
            len,
        ).1,
        Step::Revoke { gid } => revoke(b, gid).1,
    }
}

/// The book after some steps, taken in order.
pub open spec fn after(b: Book, steps: Seq<Step>) -> Book
    decreases steps.len(),
{
    if steps.len() == 0 {
        b
    } else {
        stepped(after(b, steps.drop_last()), steps.last())
    }
}

/// How many of some steps ask for a grant.
pub open spec fn asked(steps: Seq<Step>) -> nat
    decreases steps.len(),
{
    if steps.len() == 0 {
        0
    } else {
        asked(steps.drop_last()) + if steps.last() is Issue {
            1nat
        } else {
            0nat
        }
    }
}

/// How many sequence numbers lie from the one `gid` carries to the book's next.
/// It is 1 right after `gid` was issued, and grows with every grant.
pub open spec fn lead(b: Book, gid: i32) -> int {
    (b.next_seq - grant::grant_seq_spec(gid as int)) % 0x800
}

/// A grant that was issued is live under the id that was returned; it took the
/// first free slot, and no grant was live under that id before.
pub proof fn law_issue_makes_live(
    b: Book,
    flags: u32,
    who_to: Endpoint,
    who_from: Endpoint,
    addr: u64,
    len: u64,
)
    requires
        b.entries.len() <= GRANT_MAX_IDX + 1,
        b.next_seq <= GRANT_MAX_SEQ,
    ensures
        issue(b, flags, who_to, who_from, addr, len).0 matches Ok(gid) ==> {
            let later = issue(b, flags, who_to, who_from, addr, len).1;
            &&& !live(b.entries, gid)
            &&& live(later.entries, gid)
            &&& lead(later, gid) == 1
            &&& grant::grant_idx_spec(gid as int) == first_free(b.entries)
        },
{
    lemma_free_from(b.entries, 0);
    if first_free(b.entries) < b.entries.len() {
        grant::law_grant_id_round_trip(first_free(b.entries), b.next_seq as int);
    }
    law_issued_entry_is_live(flags, b.next_seq, who_to, who_from, addr, len);
}

proof fn lemma_stale(b: Book, gid: i32, steps: Seq<Step>)
    requires
        b.next_seq <= GRANT_MAX_SEQ,
        !live(b.entries, gid),
        1 <= lead(b, gid),
        lead(b, gid) + asked(steps) <= 0x800,
    ensures
        !live(after(b, steps).entries, gid),
        after(b, steps).next_seq <= GRANT_MAX_SEQ,
        lead(b, gid) + asked(steps) < 0x800 ==> lead(b, gid) <= lead(after(b, steps), gid) <= lead(
            b,
            gid,
        ) + asked(steps),
        lead(b, gid) + asked(steps) == 0x800 ==> lead(after(b, steps), gid) == 0 || lead(b, gid)
            <= lead(after(b, steps), gid),
    decreases steps.len(),
{
    if steps.len() > 0 {
        let prev = after(b, steps.drop_last());
        lemma_stale(b, gid, steps.drop_last());
        lemma_free_from(prev.entries, 0);
        assert(0u32 & 0x100u32 == 0) by (bit_vector);
    }
}

/// A revoked id never reaches the slot's next occupants: an id that names nothing
/// goes on naming nothing, whatever is granted and revoked, until the sequence
/// numbers have come round to it again.
pub proof fn law_stale_id_names_nothing(b: Book, gid: i32, steps: Seq<Step>)
    requires
        b.next_seq <= GRANT_MAX_SEQ,
        !live(b.entries, gid),
        1 <= lead(b, gid),
        lead(b, gid) + asked(steps) <= GRANT_MAX_SEQ + 1,
    ensures
        !live(after(b, steps).entries, gid),
{
    lemma_stale(b, gid, steps);
}

/// With a free slot ahead of it refilled, the next grant takes the lowest one.
pub proof fn law_freed_slot_is_reused(t: Seq<GrantEntry>, gid: i32)
    requires
        live(t, gid),
        forall|k: int|
            0 <= k < grant::grant_idx_spec(gid as int) ==> in_use(#[trigger] t[k]),
    ensures
        first_free(cleared(t, gid)) == grant::grant_idx_spec(gid as int),
{
    let c = cleared(t, gid);
    law_revoke_kills(t, gid);
    assert forall|k: int| 0 <= k < grant::grant_idx_spec(gid as int) implies in_use(
        #[trigger] c[k],
    ) by {
        assert(in_use(t[k]));
    }
    lemma_free_is(c, 0, grant::grant_idx_spec(gid as int));
}

proof fn lemma_used_count_update(t: Seq<GrantEntry>, i: int, e: GrantEntry)
    requires
        0 <= i < t.len(),
    ensures
        used_count(t.update(i, e)) + (if in_use(t[i]) {
            1int
        } else {
            0
        }) == used_count(t) + (if in_use(e) {
            1int
        } else {
            0
        }),
    decreases t.len(),
{
    let u = t.update(i, e);
    if i == t.len() - 1 {
        assert(u.drop_last() =~= t.drop_last());
    } else {
        assert(u.drop_last() =~= t.drop_last().update(i, e));
        lemma_used_count_update(t.drop_last(), i, e);
    }
}

/// The count follows issuing and revoking.
pub proof fn law_used_counts(
    t: Seq<GrantEntry>,
    flags: u32,
    seq: u32,
    who_to: Endpoint,
    who_from: Endpoint,
    addr: u64,
    len: u64,
    gid: i32,
)
    ensures
        first_free(t) < t.len() ==> used_count(
            issued_table(t, issued_entry(flags, seq, who_to, who_from, addr, len)),
        ) == used_count(t) + 1,
        live(t, gid) ==> used_count(cleared(t, gid)) == used_count(t) - 1,
{
    lemma_free_from(t, 0);
    let e = issued_entry(flags, seq, who_to, who_from, addr, len);
    law_issued_entry_is_live(flags, seq, who_to, who_from, addr, len);
    if first_free(t) < t.len() {
        lemma_used_count_update(t, first_free(t), e);
    }
    if live(t, gid) {
        lemma_used_count_update(
            t,
            grant::grant_idx_spec(gid as int),
            GrantEntry::empty_spec(),
        );
    }
}

/// A grant is refused exactly when its range is empty, starts at zero or wraps, when it
/// gives no access, or when every slot is taken; the request is looked at first.
pub proof fn law_refused_only_for_cause(b: Book, flags: u32, who_to: Endpoint, who_from: Endpoint, addr: u64, len: u64)
    ensures
        ({
            let bad = addr == 0 || len == 0 || addr + len > u64::MAX || flags & 3 == 0;
            let full = forall|k: int|
                0 <= k < b.entries.len() ==> (#[trigger] b.entries[k]).flags & CPF_USED != 0;
            let (r, later) = issue(b, flags, who_to, who_from, addr, len);
            &&& r is Err <==> bad || full
            &&& bad ==> r == Err::<i32, i32>(EINVAL)
            &&& !bad && full ==> r == Err::<i32, i32>(ENOMEM)
            &&& r is Err ==> later == b
        }),
{
    lemma_free_from(b.entries, 0);
    if first_free(b.entries) < b.entries.len() {
        assert(!in_use(b.entries[first_free(b.entries)]));
    } else {
        assert forall|k: int| 0 <= k < b.entries.len() implies (#[trigger] b.entries[k]).flags
            & CPF_USED != 0 by {
            assert(in_use(b.entries[k]));
        }
    }
}

/// What is granted is what was asked for: the slot that the id names holds the range,
/// both parties and the id's sequence number. It is the lowest slot that was free, no
/// other slot is touched, and the next grant carries the next number.
pub proof fn law_grant_holds_what_was_asked(
    b: Book,
    flags: u32,
    who_to: Endpoint,
    who_from: Endpoint,
    addr: u64,
    len: u64,
)
    requires
        b.entries.len() <= GRANT_MAX_IDX + 1,
        b.next_seq <= GRANT_MAX_SEQ,
        issue(b, flags, who_to, who_from, addr, len).0 is Ok,
    ensures
        ({
            let (r, later) = issue(b, flags, who_to, who_from, addr, len);
            let gid = r->Ok_0;
            let idx = (gid as int) % 0x10_0000;
            &&& 0 <= gid
            &&& idx < b.entries.len()
            &&& (gid as int) / 0x10_0000 == b.next_seq
            &&& b.entries[idx].flags & CPF_USED == 0
            &&& forall|k: int| 0 <= k < idx ==> (#[trigger] b.entries[k]).flags & CPF_USED != 0
            &&& later.entries.len() == b.entries.len()
            &&& later.entries[idx].who_to == who_to
            &&& later.entries[idx].who_from == who_from
            &&& later.entries[idx].addr == addr
            &&& later.entries[idx].len == len
            &&& later.entries[idx].seq == b.next_seq
            &&& later.entries[idx].flags == flags | 0x100 | 0x1000
            &&& forall|k: int|
                0 <= k < b.entries.len() && k != idx ==> later.entries[k] == #[trigger] b.entries[k]
            &&& later.next_seq == (if b.next_seq == GRANT_MAX_SEQ {
                0
            } else {
                b.next_seq + 1
            })
        }),
{
    lemma_free_from(b.entries, 0);
    let idx = first_free(b.entries);
    grant::law_grant_id_round_trip(idx, b.next_seq as int);
    assert(!in_use(b.entries[idx]));
    assert forall|k: int| 0 <= k < idx implies (#[trigger] b.entries[k]).flags & CPF_USED != 0 by {
        assert(in_use(b.entries[k]));
    }
}

/// Where the kernel is told a table lies reads back, and so does its size.
pub proof fn law_registration_reads_back(addr: u64, entries: i32)
    ensures
        payload::i32_field(setgrant_payload(addr, entries), 4) == entries,
        payload::u64_field(setgrant_payload(addr, entries), 16) == addr,
{
    let p0 = payload::zero_payload();
    let p1 = payload::with_i32(p0, 4, entries);
    payload::law_i32_round_trip(p0, 4, entries);
    payload::law_u64_round_trip(p1, 16, addr);
    payload::law_writes_do_not_disturb(p1, 16, 0, addr, 4);
}

/// Nothing is issued or revoked past a registration that failed: its error is the
/// answer and the table is as it was. A table the kernel was never told of has nothing
/// to revoke.
pub proof fn law_failed_registration_changes_nothing(
    b: Book,
    e: i32,
    flags: u32,
    who_to: Endpoint,
    who_from: Endpoint,
    addr: u64,
    len: u64,
    gid: i32,
    granting: bool,
)
    ensures
        issue_when(b, Err(e), flags, who_to, who_from, addr, len) == (Err::<i32, i32>(e), b),
        revoke_when(b, true, Err(e), gid) == (Err::<(), i32>(e), b),
        revoke_when(b, false, Err(e), gid) == (Err::<(), i32>(EINVAL), b),
        revoke_when(b, granting, Ok(()), gid).0 is Ok <==> granting && live(b.entries, gid),
        revoke_when(b, granting, Ok(()), gid).1.next_seq == b.next_seq,
{
}

/// A table is known where it lies once registering it went well, and then no answer to a
/// further registration there matters. A registration the kernel refuses leaves it known
/// where it was, and is answered with the kernel's code.
pub proof fn law_registered_once_is_enough(known: usize, at: usize, rc: i32, later: i32)
    ensures
        known_at(known, at, rc).0 is Ok <==> rc == OK || at == known,
        known_at(known, at, rc).0 is Ok ==> known_at(known, at, rc).1 == at,
        known_at(known, at, rc).0 is Ok ==> known_at(known_at(known, at, rc).1, at, later) == (
            Ok::<(), i32>(()),
            at,
        ),
        known_at(known, at, rc).0 is Err ==> known_at(known, at, rc) == (
            Err::<(), i32>(rc),
            known,
        ),
{
}

} // verus!
