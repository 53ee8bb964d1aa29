//! The regions of each process: one heap, anonymous mappings, and the stack the
//! kernel mapped. Pages fault in lazily; a fault outside every region is not
//! resolved.
use vstd::prelude::*;
use crate::abi::com::NR_SERVED_PROCS;
use crate::abi::errno::{EINVAL, ENOMEM};
use crate::abi::uspace::{USER_REGION_LIMIT, USER_STACK_BASE, USER_STACK_TOP};
use crate::table;
use crate::vm::laws;

verus! {

/// Heap origin of a process that was never executed from an image.
pub const HEAP_BASE: u64 = 0x0100_0000;

/// Origin of its mapping arena.
pub const MMAP_BASE: u64 = 0x0200_0000;

/// Distance from a heap origin to the arena above it.
pub const MMAP_GAP: u64 = 0x0100_0000;

/// No region but the stack reaches past this address.
pub const REGION_LIMIT: u64 = USER_REGION_LIMIT;

/// Bytes in a page.
pub const PAGE_SIZE: u64 = 4096;

/// Processes the table covers.
pub const MAX_CLIENTS: usize = NR_SERVED_PROCS;

/// Regions a process can have.
pub const MAX_REGIONS: usize = 16;

/// What a region is for. An unused slot is free.
#[derive(Copy, Clone, Debug, PartialEq, Eq, Structural)]
pub enum Kind {
    Unused,
    Heap,
    Mmap,
    /// The initial stack, already mapped by the kernel.
    Stack,
}

/// The addresses `[start, end)`.
#[derive(Copy, Clone, Debug, PartialEq, Eq, Structural)]
pub struct Region {
    pub start: u64,
    pub end: u64,
    pub kind: Kind,
}

impl Region {
    /// A free slot.
    pub open spec fn empty_spec() -> Region {
        Region { start: 0, end: 0, kind: Kind::Unused }
    }

    /// A free slot.
    #[verifier::when_used_as_spec(empty_spec)]
    pub fn empty() -> (r: Region)
        ensures
            r == Region::empty_spec(),
    {
        Region { start: 0, end: 0, kind: Kind::Unused }
    }

    /// The region covers `addr`.
    pub open spec fn covers(self, addr: u64) -> bool {
        self.kind != Kind::Unused && self.start <= addr < self.end
    }

    /// Whether the region covers `addr`.
    pub fn contains(&self, addr: u64) -> (b: bool)
        ensures
            b == self.covers(addr),
    {
        self.kind != Kind::Unused && addr >= self.start && addr < self.end
    }
}

/// The regions of kind `k`.
pub open spec fn of_kind(k: Kind) -> spec_fn(Region) -> bool {
    |r: Region| r.kind == k
}

/// The regions in use.
pub open spec fn live_regions() -> spec_fn(Region) -> bool {
    |r: Region| r.kind != Kind::Unused
}

/// The regions that cover `addr`.
pub open spec fn covering(addr: u64) -> spec_fn(Region) -> bool {
    |r: Region| r.covers(addr)
}

/// The mapping that starts at `addr`.
pub open spec fn mapped_at(addr: u64) -> spec_fn(Region) -> bool {
    |r: Region| r.kind == Kind::Mmap && r.start == addr
}

/// A process's memory as the server knows it.
#[verifier::ext_equal]
pub ghost struct Space {
    pub regions: Seq<Region>,
    pub heap_origin: u64,
    pub mmap_next: u64,
}

impl Space {
    /// `addr` lies in one of the regions.
    pub open spec fn contains(self, addr: u64) -> bool {
        table::any(self.regions, covering(addr))
    }

    /// With slot `i` holding `r`.
    pub open spec fn with(self, i: int, r: Region) -> Space {
        Space { regions: self.regions.update(i, r), ..self }
    }
}

/// `v` rounded up to a page.
pub open spec fn page_up(v: int) -> int {
    (v + 4095) / 4096 * 4096
}

/// What setting the break to `b` returns.
pub open spec fn brk_result(s: Space, b: u64) -> Result<u64, i32> {
    if b < s.heap_origin || b + 4095 > u64::MAX {
        Err(EINVAL)
    } else if page_up(b as int) > REGION_LIMIT {
        Err(ENOMEM)
    } else if !table::any(s.regions, of_kind(Kind::Heap)) && !table::any(
        s.regions,
        of_kind(Kind::Unused),
    ) {
        Err(EINVAL)
    } else {
        Ok(page_up(b as int) as u64)
    }
}

/// The space once the break ends at `end`: the heap moved, or a new one.
pub open spec fn brk_space(s: Space, end: u64) -> Space {
    let h = table::first(s.regions, of_kind(Kind::Heap));
    if h < s.regions.len() {
        s.with(h, Region { end, ..s.regions[h] })
    } else {
        s.with(
            table::first(s.regions, of_kind(Kind::Unused)),
            Region { start: s.heap_origin, end, kind: Kind::Heap },
        )
    }
}

/// What mapping `len` bytes returns: the address, which is where the arena stands.
pub open spec fn mmap_result(s: Space, len: u64) -> Result<u64, i32> {
    if len == 0 || len + 4095 > u64::MAX || s.mmap_next + page_up(len as int) > u64::MAX {
        Err(EINVAL)
    } else if s.mmap_next + page_up(len as int) > REGION_LIMIT || !table::any(
        s.regions,
        of_kind(Kind::Unused),
    ) {
        Err(ENOMEM)
    } else {
        Ok(s.mmap_next)
    }
}

/// The space once `len` bytes are mapped; the arena never moves back.
pub open spec fn mmap_space(s: Space, len: u64) -> Space {
    let end = (s.mmap_next + page_up(len as int)) as u64;
    Space {
        mmap_next: end,
        ..s.with(
            table::first(s.regions, of_kind(Kind::Unused)),
            Region { start: s.mmap_next, end, kind: Kind::Mmap },
        )
    }
}

/// What unmapping `[addr, addr + len)` returns: the range to sweep, never past
/// the mapping that starts at `addr`.
pub open spec fn munmap_result(s: Space, addr: u64, len: u64) -> Result<(u64, u64), i32> {
    let i = table::first(s.regions, mapped_at(addr));
    if len == 0 || len + 4095 > u64::MAX || addr + page_up(len as int) > u64::MAX || i
        >= s.regions.len() {
        Err(EINVAL)
    } else if addr + page_up(len as int) < s.regions[i].end {
        Ok((addr, (addr + page_up(len as int)) as u64))
    } else {
        Ok((addr, s.regions[i].end))
    }
}

/// The space without the mapping that starts at `addr`.
pub open spec fn munmap_space(s: Space, addr: u64) -> Space {
    s.with(table::first(s.regions, mapped_at(addr)), Region::empty_spec())
}

/// The space of a process just executed from an image that ends at `image_end`.
pub open spec fn exec_space(s: Space, image_end: u64) -> Space {
    Space {
        regions: Seq::new(s.regions.len(), |i: int| Region::empty_spec()),
        heap_origin: image_end,
        mmap_next: if image_end + MMAP_GAP > u64::MAX {
            u64::MAX
        } else {
            (image_end + MMAP_GAP) as u64
        },
    }
}

/// The stack as a region.
pub open spec fn stack_region() -> Region {
    Region { start: USER_STACK_BASE, end: USER_STACK_TOP, kind: Kind::Stack }
}

/// The space with the stack recorded, in the slot it already has or the first
/// free one.
pub open spec fn stack_space(s: Space) -> Space {
    if table::any(s.regions, of_kind(Kind::Stack)) {
        s.with(table::first(s.regions, of_kind(Kind::Stack)), stack_region())
    } else if table::any(s.regions, of_kind(Kind::Unused)) {
        s.with(table::first(s.regions, of_kind(Kind::Unused)), stack_region())
    } else {
        s
    }
}

/// Round up to a page; `None` when that does not fit.
pub fn page_align_up(v: u64) -> (r: Option<u64>)
    ensures
        r == (if v + 4095 > u64::MAX {
            None
        } else {
            Some(page_up(v as int) as u64)
        }),
        r is Some ==> r->0 == page_up(v as int) && v <= r->0 < v + 4096,
{
    if v > u64::MAX - 4095 {
        return None;
    }
    let w: u64 = v + 4095;
    let r: u64 = w & !4095u64;
    assert(r == w / 4096 * 4096) by (bit_vector)
        requires
            r == w & !4095u64,
    ;
    Some(r)
}

/// One process's regions, its heap origin, and where its next mapping goes.
#[derive(Copy, Clone)]
pub struct ClientRegions {
    pub regions: [Region; 16],
    pub heap_origin: u64,
    pub mmap_next: u64,
}

impl View for ClientRegions {
    type V = Space;

    open spec fn view(&self) -> Space {
        Space {
            regions: self.regions@,
            heap_origin: self.heap_origin,
            mmap_next: self.mmap_next,
        }
    }
}

impl ClientRegions {
    /// A process that has touched nothing.
    pub fn empty() -> (c: ClientRegions)
        ensures
            c@ == laws::empty_space(),
    {
        let c = ClientRegions {
            regions: [Region::empty();16],
            heap_origin: HEAP_BASE,
            mmap_next: MMAP_BASE,
        };
        assert(c@ =~= laws::empty_space());
        c
    }

    /// Whether `addr` lies in one of the regions.
    pub fn contains(&self, addr: u64) -> (b: bool)
        ensures
            b == self@.contains(addr),
    {
        let mut i: usize = 0;
        while i < 16
            invariant
                i <= 16,
                table::first(self.regions@, covering(addr)) == table::first_from(
                    self.regions@,
                    covering(addr),
                    i as int,
                ),
            decreases 16 - i,
        {
            if self.regions[i].contains(addr) {
                return true;
            }
            i = i + 1;
        }
        false
    }

    /// The first region of kind `k`, or [`MAX_REGIONS`].
    fn find_kind(&self, k: Kind) -> (i: usize)
        ensures
            i == table::first(self.regions@, of_kind(k)),
            i <= 16,
            i < 16 ==> self.regions@[i as int].kind == k,
    {
        let mut i: usize = 0;
        while i < 16
            invariant
                i <= 16,
                table::first(self.regions@, of_kind(k)) == table::first_from(
                    self.regions@,
                    of_kind(k),
                    i as int,
                ),
            decreases 16 - i,
        {
            if self.regions[i].kind == k {
                return i;
            }
            i = i + 1;
        }
        i
    }

    /// Set the program break, growing, shrinking or creating the heap. A refused
    /// break changes nothing.
    pub fn set_brk(&mut self, new_break: u64) -> (r: Result<u64, i32>)
        ensures
            r == brk_result(old(self)@, new_break),
            final(self)@ == (match r {
                Ok(end) => brk_space(old(self)@, end),
                Err(_) => old(self)@,
            }),
    {
        let origin: u64 = self.heap_origin;
        if new_break < origin {
            return Err(EINVAL);
        }
        let end: u64 = match page_align_up(new_break) {
            Some(v) => v,
            None => {
                return Err(EINVAL);
            },
        };
        if end > REGION_LIMIT {
            return Err(ENOMEM);
        }
        let h: usize = self.find_kind(Kind::Heap);
        if h < 16 {
            self.regions[h].end = end;
            assert(self@ =~= brk_space(old(self)@, end));
            return Ok(end);
        }
        let f: usize = self.find_kind(Kind::Unused);
        if f < 16 {
            self.regions[f] = Region { start: origin, end, kind: Kind::Heap };
            assert(self@ =~= brk_space(old(self)@, end));
            return Ok(end);
        }
        Err(EINVAL)
    }

    /// Map `len` bytes, rounded up to a page, where the arena stands.
    pub fn mmap(&mut self, len: u64) -> (r: Result<u64, i32>)
        ensures
            r == mmap_result(old(self)@, len),
            final(self)@ == (if r is Ok {
                mmap_space(old(self)@, len)
            } else {
                old(self)@
            }),
    {
        if len == 0 {
            return Err(EINVAL);
        }
        let size: u64 = match page_align_up(len) {
            Some(v) => v,
            None => {
                return Err(EINVAL);
            },
        };
        let start: u64 = self.mmap_next;
        if size > u64::MAX - start {
            return Err(EINVAL);
        }
        let end: u64 = start + size;
        if end > REGION_LIMIT {
            return Err(ENOMEM);
        }
        let f: usize = self.find_kind(Kind::Unused);
        if f < 16 {
            self.regions[f] = Region { start, end, kind: Kind::Mmap };
            self.mmap_next = end;
            assert(self@ =~= mmap_space(old(self)@, len));
            return Ok(start);
        }
        Err(ENOMEM)
    }

    /// Drop the mapping that starts at `addr` and return the range whose pages
    /// have to be unmapped, cut off at the mapping's own end.
    pub fn munmap(&mut self, addr: u64, len: u64) -> (r: Result<(u64, u64), i32>)
        ensures
            r == munmap_result(old(self)@, addr, len),
            final(self)@ == (if r is Ok {
                munmap_space(old(self)@, addr)
            } else {
                old(self)@
            }),
    {
        if len == 0 {
            return Err(EINVAL);
        }
        let size: u64 = match page_align_up(len) {
            Some(v) => v,
            None => {
                return Err(EINVAL);
            },
        };
        if size > u64::MAX - addr {
            return Err(EINVAL);
        }
        let end: u64 = addr + size;
        let mut i: usize = 0;
        while i < 16
            invariant
                i <= 16,
                len != 0,
                len + 4095 <= u64::MAX,
                addr + page_up(len as int) <= u64::MAX,
                end == addr + page_up(len as int),
                self@ == old(self)@,
                table::first(self.regions@, mapped_at(addr)) == table::first_from(
                    self.regions@,
                    mapped_at(addr),
                    i as int,
                ),
            decreases 16 - i,
        {
            if self.regions[i].kind == Kind::Mmap && self.regions[i].start == addr {
                let sweep_end: u64 = if end < self.regions[i].end {
                    end
                } else {
                    self.regions[i].end
                };
                self.regions[i] = Region::empty();
                assert(self@ =~= munmap_space(old(self)@, addr));
                return Ok((addr, sweep_end));
            }
            i = i + 1;
        }
        Err(EINVAL)
    }

    /// Start over around an image that ends at `image_end`. How many regions the
    /// previous image had.
    pub fn exec(&mut self, image_end: u64) -> (dropped: usize)
        ensures
            dropped == table::count(old(self)@.regions, live_regions()),
            final(self)@ == exec_space(old(self)@, image_end),
    {
        let mut dropped: usize = 0;
        let mut i: usize = 0;
        while i < 16
            invariant
                dropped <= i <= 16,
                self@ == old(self)@,
                dropped == table::count(self.regions@.take(i as int), live_regions()),
            decreases 16 - i,
        {
            proof {
                table::lemma_count_push(self.regions@, live_regions(), i as int);
            }
            if self.regions[i].kind != Kind::Unused {
                dropped = dropped + 1;
            }
            i = i + 1;
        }
        assert(self.regions@.take(16) =~= self.regions@);
        self.regions = [Region::empty();16];
        self.heap_origin = image_end;
        self.mmap_next = if image_end > u64::MAX - MMAP_GAP {
            u64::MAX
        } else {
            image_end + MMAP_GAP
        };
        assert(self@ =~= exec_space(old(self)@, image_end));
        dropped
    }

    /// Record the stack the kernel mapped. Recording it twice takes one slot;
    /// with no slot left nothing is recorded.
    pub fn record_stack(&mut self)
        ensures
            final(self)@ == stack_space(old(self)@),
    {
        let s: usize = self.find_kind(Kind::Stack);
        let f: usize = self.find_kind(Kind::Unused);
        if s < 16 {
            self.regions[s] = Region {
                start: USER_STACK_BASE,
                end: USER_STACK_TOP,
                kind: Kind::Stack,
            };
        } else if f < 16 {
            self.regions[f] = Region {
                start: USER_STACK_BASE,
                end: USER_STACK_TOP,
                kind: Kind::Stack,
            };
        }
        assert(self@ =~= stack_space(old(self)@));
    }
}

/// Every process's regions, by process number.
pub struct RegionTable {
    pub clients: [ClientRegions; 32],
}

/// The server keeps regions for process `nr`.
pub open spec fn trackable(nr: i32) -> bool {
    0 <= nr < 32
}

impl RegionTable {
    /// The memory of process `nr`.
    pub open spec fn space(self, nr: i32) -> Space {
        self.clients@[nr as int]@
    }

    /// Every process's regions are in order.
    pub open spec fn wf(self) -> bool {
        forall|nr: i32| trackable(nr) ==> laws::wf(#[trigger] self.space(nr))
    }

    /// This table is `before` with the memory of `nr` changed to `s`.
    pub open spec fn changed(self, before: RegionTable, nr: i32, s: Space) -> bool {
        &&& self.space(nr) == s
        &&& forall|o: i32| trackable(o) && o != nr ==> #[trigger] self.space(o) == before.space(o)
    }

    /// A table in which no process has touched anything.
    pub fn new() -> (t: RegionTable)
        ensures
            t.wf(),
            forall|nr: i32| trackable(nr) ==> #[trigger] t.space(nr) == laws::empty_space(),
    {
        let t = RegionTable { clients: [ClientRegions::empty();32] };
        proof {
            laws::law_empty_wf();
        }
        t
    }
}

proof fn lemma_table_wf(before: RegionTable, after: RegionTable, nr: i32, s: Space)
    requires
        before.wf(),
        laws::wf(s),
        after.changed(before, nr, s),
    ensures
        after.wf(),
{
    assert forall|o: i32| trackable(o) implies laws::wf(#[trigger] after.space(o)) by {
        assert(laws::wf(before.space(o)));
    }
}

/// The table index of process `nr`: none for a kernel task or past the table.
pub fn client_idx(nr: i32) -> (i: Option<usize>)
    ensures
        i == (if trackable(nr) {
            Some(nr as usize)
        } else {
            None
        }),
{
    if nr >= 0 && nr < 32 {
        Some(nr as usize)
    } else {
        None
    }
}

/// Whether `addr` lies in one of `nr`'s regions.
pub fn contains(t: &RegionTable, nr: i32, addr: u64) -> (b: bool)
    ensures
        b == (trackable(nr) && t.space(nr).contains(addr)),
{
    match client_idx(nr) {
        Some(i) => t.clients[i].contains(addr),
        None => false,
    }
}

/// Set the program break of process `nr`.
pub fn set_brk(t: &mut RegionTable, nr: i32, new_break: u64) -> (r: Result<u64, i32>)
    requires
        old(t).wf(),
    ensures
        final(t).wf(),
        r == (if trackable(nr) {
            brk_result(old(t).space(nr), new_break)
        } else {
            Err(EINVAL)
        }),
        match r {
            Ok(end) => final(t).changed(*old(t), nr, brk_space(old(t).space(nr), end)),
            Err(_) => forall|o: i32|
                trackable(o) ==> #[trigger] final(t).space(o) == old(t).space(o),
        },
{
    match client_idx(nr) {
        Some(i) => {
            proof {
                assert(laws::wf(t.space(nr)));
                laws::law_brk_wf(t.space(nr), new_break);
            }
            let mut c = t.clients[i];
            let r = c.set_brk(new_break);
            t.clients[i] = c;
            proof {
                assert(t.changed(*old(t), nr, c@));
                lemma_table_wf(*old(t), *t, nr, c@);
            }
            r
        },
        None => Err(EINVAL),
    }
}

/// Map `len` bytes for process `nr`.
pub fn mmap(t: &mut RegionTable, nr: i32, len: u64) -> (r: Result<u64, i32>)
    requires
        old(t).wf(),
    ensures
        final(t).wf(),
        r == (if trackable(nr) {
            mmap_result(old(t).space(nr), len)
        } else {
            Err(EINVAL)
        }),
        match r {
            Ok(_) => final(t).changed(*old(t), nr, mmap_space(old(t).space(nr), len)),
            Err(_) => forall|o: i32|
                trackable(o) ==> #[trigger] final(t).space(o) == old(t).space(o),
        },
{
    match client_idx(nr) {
        Some(i) => {
            proof {
                assert(laws::wf(t.space(nr)));
                laws::law_mmap_wf(t.space(nr), len);
            }
            let mut c = t.clients[i];
            let r = c.mmap(len);
            t.clients[i] = c;
            proof {
                assert(t.changed(*old(t), nr, c@));
                lemma_table_wf(*old(t), *t, nr, c@);
            }
            r
        },
        None => Err(EINVAL),
    }
}

/// Drop process `nr`'s mapping that starts at `addr`.
pub fn munmap(t: &mut RegionTable, nr: i32, addr: u64, len: u64) -> (r: Result<(u64, u64), i32>)
    requires
        old(t).wf(),
    ensures
        final(t).wf(),
        r == (if trackable(nr) {
            munmap_result(old(t).space(nr), addr, len)
        } else {
            Err(EINVAL)
        }),
        match r {
            Ok((_, end)) => end <= REGION_LIMIT && final(t).changed(
                *old(t),
                nr,
                munmap_space(old(t).space(nr), addr),
            ),
            Err(_) => forall|o: i32|
                trackable(o) ==> #[trigger] final(t).space(o) == old(t).space(o),
        },
{
    match client_idx(nr) {
        Some(i) => {
            proof {
                assert(laws::wf(t.space(nr)));
                laws::law_munmap_wf(t.space(nr), addr, len);
            }
            let mut c = t.clients[i];
            let r = c.munmap(addr, len);
            t.clients[i] = c;
            proof {
                assert(t.changed(*old(t), nr, c@));
                lemma_table_wf(*old(t), *t, nr, c@);
            }
            r
        },
        None => Err(EINVAL),
    }
}

/// Give `child_nr` a copy of everything `parent_nr` has, in place of what it had.
pub fn fork(t: &mut RegionTable, parent_nr: i32, child_nr: i32) -> (r: Result<(), i32>)
    requires
        old(t).wf(),
    ensures
        final(t).wf(),
        r == (if trackable(parent_nr) && trackable(child_nr) {
            Ok::<(), i32>(())
        } else {
            Err(EINVAL)
        }),
        match r {
            Ok(_) => final(t).changed(*old(t), child_nr, old(t).space(parent_nr)),
            Err(_) => forall|o: i32|
                trackable(o) ==> #[trigger] final(t).space(o) == old(t).space(o),
        },
{
    match client_idx(parent_nr) {
        Some(p) => match client_idx(child_nr) {
            Some(c) => {
                proof {
                    assert(laws::wf(t.space(parent_nr)));
                }
                let parent = t.clients[p];
                t.clients[c] = parent;
                proof {
                    assert(t.changed(*old(t), child_nr, parent@));
                    lemma_table_wf(*old(t), *t, child_nr, parent@);
                }
                Ok(())
            },
            None => Err(EINVAL),
        },
        None => Err(EINVAL),
    }
}

/// Start process `nr` over around an image that ends at `image_end`.
pub fn exec(t: &mut RegionTable, nr: i32, image_end: u64) -> (r: Result<usize, i32>)
    requires
        old(t).wf(),
    ensures
        final(t).wf(),
        r is Ok == trackable(nr),
        r is Err ==> r->Err_0 == EINVAL && forall|o: i32|
            trackable(o) ==> #[trigger] final(t).space(o) == old(t).space(o),
        r is Ok ==> r->Ok_0 == table::count(old(t).space(nr).regions, live_regions()) && final(t).changed(
            *old(t),
            nr,
            exec_space(old(t).space(nr), image_end),
        ),
{
    match client_idx(nr) {
        Some(i) => {
            proof {
                laws::law_exec_wf(t.space(nr), image_end);
            }
            let mut c = t.clients[i];
            let n: usize = c.exec(image_end);
            t.clients[i] = c;
            proof {
                assert(t.changed(*old(t), nr, c@));
                lemma_table_wf(*old(t), *t, nr, c@);
            }
            Ok(n)
        },
        None => Err(EINVAL),
    }
}

/// Record the stack of process `nr`.
pub fn record_stack(t: &mut RegionTable, nr: i32) -> (r: Result<(), i32>)
    requires
        old(t).wf(),
    ensures
        final(t).wf(),
        r == (if trackable(nr) {
            Ok::<(), i32>(())
        } else {
            Err(EINVAL)
        }),
        match r {
            Ok(_) => final(t).changed(*old(t), nr, stack_space(old(t).space(nr))),
            Err(_) => forall|o: i32|
                trackable(o) ==> #[trigger] final(t).space(o) == old(t).space(o),
        },
{
    match client_idx(nr) {
        Some(i) => {
            proof {
                assert(laws::wf(t.space(nr)));
                laws::law_stack_wf(t.space(nr));
            }
            let mut c = t.clients[i];
            c.record_stack();
            t.clients[i] = c;
            proof {
                assert(t.changed(*old(t), nr, c@));
                lemma_table_wf(*old(t), *t, nr, c@);
            }
            Ok(())
        },
        None => Err(EINVAL),
    }
}

} // verus!
