//! The descriptors of each process.
//!
//! Every process is born with 0, 1 and 2 on the console; the rest are closed and
//! handed out lowest first.
use vstd::prelude::*;
use crate::abi::callnr::CDEV_MINOR_CONSOLE;
use crate::abi::com::NR_SERVED_PROCS;
use crate::abi::errno::{EBADF, EMFILE};
use crate::table;

verus! {

/// Descriptors a process can have.
pub const NR_FDS: usize = 8;

/// First descriptor an open may hand out.
pub const FIRST_FREE_FD: usize = 3;

/// Processes the table covers.
pub const NR_FD_ROWS: usize = NR_SERVED_PROCS;

/// The driver behind a character device.
#[derive(Copy, Clone, PartialEq, Eq, Debug, Structural)]
pub enum CharDriver {
    Tty,
    Memory,
}

/// What a descriptor refers to.
#[derive(Copy, Clone, PartialEq, Eq, Debug, Structural)]
pub enum Fd {
    /// Not open.
    Unused,
    /// A character device: its driver, and the minor passed on to it.
    CharDev { dev: CharDriver, minor: i32 },
    /// A regular file: its inode, and the position of the next read.
    File { ino: u32, pos: u64 },
}

/// One process's descriptors.
pub type FdRow = [Fd; 8];

/// The console.
pub open spec fn console() -> Fd {
    Fd::CharDev { dev: CharDriver::Tty, minor: CDEV_MINOR_CONSOLE }
}

/// The descriptors a process is born with.
pub open spec fn default_fds() -> Seq<Fd> {
    Seq::new(
        8,
        |i: int|
            if i < FIRST_FREE_FD {
                console()
            } else {
                Fd::Unused
            },
    )
}

/// The descriptors a process is born with.
pub fn default_row() -> (row: FdRow)
    ensures
        row@ == default_fds(),
{
    let console = Fd::CharDev { dev: CharDriver::Tty, minor: CDEV_MINOR_CONSOLE };
    let mut row: FdRow = [Fd::Unused;8];
    row[0] = console;
    row[1] = console;
    row[2] = console;
    assert(row@ =~= default_fds());
    row
}

/// Descriptor `fd` of process `nr` names an entry of the table.
pub open spec fn names(rows: Seq<FdRow>, nr: i32, fd: i32) -> bool {
    0 <= nr < rows.len() && 0 <= fd < NR_FDS
}

/// What a descriptor resolves to: `EBADF` for every way of naming nothing.
pub open spec fn resolved(rows: Seq<FdRow>, nr: i32, fd: i32) -> Result<Fd, i32> {
    if names(rows, nr, fd) && rows[nr as int]@[fd as int] != Fd::Unused {
        Ok(rows[nr as int]@[fd as int])
    } else {
        Err(EBADF)
    }
}

/// The table with one entry of one process changed.
pub open spec fn changed(
    before: Seq<FdRow>,
    after: Seq<FdRow>,
    nr: i32,
    fd: int,
    entry: Fd,
) -> bool {
    &&& after.len() == before.len()
    &&& after[nr as int]@ == before[nr as int]@.update(fd, entry)
    &&& forall|k: int| 0 <= k < before.len() && k != nr ==> after[k] == #[trigger] before[k]
}

/// The closed descriptors.
pub open spec fn closed_fd() -> spec_fn(Fd) -> bool {
    |f: Fd| f == Fd::Unused
}

/// The lowest closed descriptor an open may hand out.
pub open spec fn lowest(row: Seq<Fd>) -> int {
    table::first_from(row, closed_fd(), FIRST_FREE_FD as int)
}

/// What opening returns: the lowest closed descriptor, or why there is none.
pub open spec fn alloc_result(rows: Seq<FdRow>, nr: i32) -> Result<i32, i32> {
    if !(0 <= nr < rows.len()) {
        Err(EBADF)
    } else if lowest(rows[nr as int]@) >= NR_FDS {
        Err(EMFILE)
    } else {
        Ok(lowest(rows[nr as int]@) as i32)
    }
}

/// A position moved on by `n`, which stops at the largest rather than wrap.
pub open spec fn moved(pos: u64, n: u64) -> u64 {
    if pos + n > u64::MAX {
        u64::MAX
    } else {
        (pos + n) as u64
    }
}

/// Resolve a descriptor.
pub fn resolve_in(rows: &[FdRow], proc_nr: i32, fd: i32) -> (r: Result<Fd, i32>)
    ensures
        r == resolved(rows@, proc_nr, fd),
{
    if proc_nr < 0 || fd < 0 {
        return Err(EBADF);
    }
    let slot: usize = proc_nr as usize;
    let idx: usize = fd as usize;
    if slot >= rows.len() || idx >= NR_FDS {
        return Err(EBADF);
    }
    let entry: Fd = rows[slot][idx];
    if entry == Fd::Unused {
        return Err(EBADF);
    }
    Ok(entry)
}

/// Install `entry` at the lowest closed descriptor of a process.
pub fn alloc_in(rows: &mut [FdRow], proc_nr: i32, entry: Fd) -> (r: Result<i32, i32>)
    ensures
        r == alloc_result(old(rows)@, proc_nr),
        match r {
            Ok(fd) => FIRST_FREE_FD <= fd < NR_FDS && changed(
                old(rows)@,
                final(rows)@,
                proc_nr,
                fd as int,
                entry,
            ),
            Err(_) => final(rows)@ == old(rows)@,
        },
{
    if proc_nr < 0 {
        return Err(EBADF);
    }
    let slot: usize = proc_nr as usize;
    if slot >= rows.len() {
        return Err(EBADF);
    }
    let mut row: FdRow = rows[slot];
    let mut fd: usize = FIRST_FREE_FD;
    while fd < NR_FDS
        invariant
            3 <= fd <= 8,
            slot == proc_nr,
            slot < rows@.len(),
            rows@ == old(rows)@,
            row == rows@[slot as int],
            lowest(row@) == table::first_from(row@, closed_fd(), fd as int),
        decreases 8 - fd,
    {
        if row[fd] == Fd::Unused {
            row[fd] = entry;
            rows[slot] = row;
            return Ok(fd as i32);
        }
        fd = fd + 1;
    }
    Err(EMFILE)
}

/// Close a descriptor; closing what is not open is an error.
pub fn close_in(rows: &mut [FdRow], proc_nr: i32, fd: i32) -> (r: Result<(), i32>)
    ensures
        r == (if resolved(old(rows)@, proc_nr, fd) is Ok {
            Ok::<(), i32>(())
        } else {
            Err(EBADF)
        }),
        match r {
            Ok(_) => changed(old(rows)@, final(rows)@, proc_nr, fd as int, Fd::Unused),
            Err(_) => final(rows)@ == old(rows)@,
        },
{
    if proc_nr < 0 || fd < 0 {
        return Err(EBADF);
    }
    let slot: usize = proc_nr as usize;
    let idx: usize = fd as usize;
    if slot >= rows.len() || idx >= NR_FDS {
        return Err(EBADF);
    }
    let mut row: FdRow = rows[slot];
    if row[idx] == Fd::Unused {
        return Err(EBADF);
    }
    row[idx] = Fd::Unused;
    rows[slot] = row;
    Ok(())
}

/// Move a file's position on by `n`. Nothing happens to anything else.
pub fn advance_in(rows: &mut [FdRow], proc_nr: i32, fd: i32, n: u64)
    ensures
        match resolved(old(rows)@, proc_nr, fd) {
            Ok(Fd::File { ino, pos }) => changed(
                old(rows)@,
                final(rows)@,
                proc_nr,
                fd as int,
                Fd::File { ino, pos: moved(pos, n) },
            ),
            _ => final(rows)@ == old(rows)@,
        },
{
    if proc_nr < 0 || fd < 0 {
        return;
    }
    let slot: usize = proc_nr as usize;
    let idx: usize = fd as usize;
    if slot >= rows.len() || idx >= NR_FDS {
        return;
    }
    let mut row: FdRow = rows[slot];
    match row[idx] {
        Fd::File { ino, pos } => {
            let next: u64 = if pos > u64::MAX - n {
                u64::MAX
            } else {
                pos + n
            };
            row[idx] = Fd::File { ino, pos: next };
            rows[slot] = row;
        },
        _ => {},
    }
}

/// The descriptors of every process.
pub struct FdTable {
    pub rows: [FdRow; 32],
}

impl FdTable {
    /// Every process with the descriptors it is born with.
    pub fn new() -> (t: FdTable)
        ensures
            forall|nr: int| 0 <= nr < 32 ==> (#[trigger] t.rows@[nr])@ == default_fds(),
    {
        FdTable { rows: [default_row();32] }
    }
}

/// Resolve a descriptor.
pub fn resolve(t: &FdTable, proc_nr: i32, fd: i32) -> (r: Result<Fd, i32>)
    ensures
        r == resolved(t.rows@, proc_nr, fd),
{
    resolve_in(t.rows.as_slice(), proc_nr, fd)
}

/// Install `entry` at the lowest closed descriptor of a process.
pub fn alloc_fd(t: &mut FdTable, proc_nr: i32, entry: Fd) -> (r: Result<i32, i32>)
    ensures
        r == alloc_result(old(t).rows@, proc_nr),
        match r {
            Ok(fd) => FIRST_FREE_FD <= fd < NR_FDS && changed(
                old(t).rows@,
                final(t).rows@,
                proc_nr,
                fd as int,
                entry,
            ),
            Err(_) => final(t).rows@ == old(t).rows@,
        },
{
    alloc_in(&mut t.rows, proc_nr, entry)
}

/// Close a descriptor.
pub fn close(t: &mut FdTable, proc_nr: i32, fd: i32) -> (r: Result<(), i32>)
    ensures
        r == (if resolved(old(t).rows@, proc_nr, fd) is Ok {
            Ok::<(), i32>(())
        } else {
            Err(EBADF)
        }),
        match r {
            Ok(_) => changed(old(t).rows@, final(t).rows@, proc_nr, fd as int, Fd::Unused),
            Err(_) => final(t).rows@ == old(t).rows@,
        },
{
    close_in(&mut t.rows, proc_nr, fd)
}

/// Move a file's position on by `n`.
pub fn advance(t: &mut FdTable, proc_nr: i32, fd: i32, n: u64)
    ensures
        match resolved(old(t).rows@, proc_nr, fd) {
            Ok(Fd::File { ino, pos }) => changed(
                old(t).rows@,
                final(t).rows@,
                proc_nr,
                fd as int,
                Fd::File { ino, pos: moved(pos, n) },
            ),
            _ => final(t).rows@ == old(t).rows@,
        },
{
    advance_in(&mut t.rows, proc_nr, fd, n)
}

/// The search for a closed descriptor stays in the row, and skips open ones.
proof fn lemma_lowest(row: Seq<Fd>, i: int)
    requires
        0 <= i <= row.len(),
    ensures
        i <= table::first_from(row, closed_fd(), i) <= row.len(),
        table::first_from(row, closed_fd(), i) < row.len() ==> row[table::first_from(
            row,
            closed_fd(),
            i,
        )] == Fd::Unused,
        forall|k: int|
            i <= k < table::first_from(row, closed_fd(), i) ==> #[trigger] row[k] != Fd::Unused,
    decreases row.len() - i,
{
    if i < row.len() && row[i] != Fd::Unused {
        lemma_lowest(row, i + 1);
    }
}

/// The first closed descriptor from `i` on.
pub proof fn lemma_lowest_is(row: Seq<Fd>, i: int, fd: int)
    requires
        0 <= i <= fd < row.len(),
        row[fd] == Fd::Unused,
        forall|k: int| i <= k < fd ==> #[trigger] row[k] != Fd::Unused,
    ensures
        table::first_from(row, closed_fd(), i) == fd,
    decreases fd - i,
{
    if i < fd {
        assert(row[i] != Fd::Unused);
        lemma_lowest_is(row, i + 1, fd);
    }
}

/// A process starts with the console on 0, 1 and 2 and nothing else.
pub proof fn law_born_with_the_console(rows: Seq<FdRow>, nr: i32, fd: i32)
    requires
        0 <= nr < rows.len(),
        rows[nr as int]@ == default_fds(),
    ensures
        resolved(rows, nr, fd) == (if 0 <= fd < FIRST_FREE_FD {
            Ok::<Fd, i32>(console())
        } else {
            Err(EBADF)
        }),
        alloc_result(rows, nr) == Ok::<i32, i32>(3),
{
    lemma_lowest_is(rows[nr as int]@, 3, 3);
}

/// Opening hands out the lowest descriptor that was closed, which then resolves
/// to what was opened; it is never a standard one, and no other descriptor, of
/// this process or another, is touched.
pub proof fn law_open_takes_the_lowest(
    before: Seq<FdRow>,
    after: Seq<FdRow>,
    nr: i32,
    fd: i32,
    entry: Fd,
)
    requires
        alloc_result(before, nr) == Ok::<i32, i32>(fd),
        changed(before, after, nr, fd as int, entry),
        entry != Fd::Unused,
    ensures
        fd >= FIRST_FREE_FD,
        resolved(before, nr, fd) == Err::<Fd, i32>(EBADF),
        resolved(after, nr, fd) == Ok::<Fd, i32>(entry),
        forall|k: i32|
            FIRST_FREE_FD <= k < fd ==> #[trigger] resolved(before, nr, k) is Ok,
        forall|p: i32, k: i32|
            p != nr || k != fd ==> #[trigger] resolved(after, p, k) == resolved(before, p, k),
{
    lemma_lowest(before[nr as int]@, 3);
    assert forall|k: i32| FIRST_FREE_FD <= k < fd implies #[trigger] resolved(
        before,
        nr,
        k,
    ) is Ok by {
        assert(before[nr as int]@[k as int] != Fd::Unused);
    }
    assert forall|p: i32, k: i32| p != nr || k != fd implies #[trigger] resolved(after, p, k)
        == resolved(before, p, k) by {
        if 0 <= p < before.len() && p != nr {
            assert(after[p as int] == before[p as int]);
        }
    }
}

/// A closed descriptor is closed: closing it again fails, and if every lower one
/// is open the next open reuses it.
pub proof fn law_closed_is_reused(before: Seq<FdRow>, after: Seq<FdRow>, nr: i32, fd: i32)
    requires
        resolved(before, nr, fd) is Ok,
        changed(before, after, nr, fd as int, Fd::Unused),
    ensures
        resolved(after, nr, fd) == Err::<Fd, i32>(EBADF),
        fd >= FIRST_FREE_FD && (forall|k: i32|
            FIRST_FREE_FD <= k < fd ==> #[trigger] resolved(before, nr, k) is Ok)
            ==> alloc_result(after, nr) == Ok::<i32, i32>(fd),
{
    if fd >= FIRST_FREE_FD && (forall|k: i32|
        FIRST_FREE_FD <= k < fd ==> #[trigger] resolved(before, nr, k) is Ok) {
        let row = after[nr as int]@;
        assert forall|k: int| 3 <= k < fd implies #[trigger] row[k] != Fd::Unused by {
            assert(resolved(before, nr, k as i32) is Ok);
        }
        lemma_lowest_is(row, 3, fd as int);
    }
}

/// A position moves by exactly what was read as long as that fits in 64 bits, and
/// then stays at the largest: two reads of `a` and `b` bytes leave it where one of
/// `a + b` would.
pub proof fn law_position_adds_up(pos: u64, a: u64, b: u64)
    ensures
        pos + a <= u64::MAX ==> moved(pos, a) == pos + a,
        pos + a > u64::MAX ==> moved(pos, a) == u64::MAX,
        pos + a + b <= u64::MAX ==> moved(moved(pos, a), b) == pos + a + b,
        pos + a + b > u64::MAX ==> moved(moved(pos, a), b) == u64::MAX,
        moved(moved(pos, a), b) == moved(moved(pos, b), a),
{
}

/// After a read of `n` bytes the descriptor still names the same file, `n` bytes
/// further on, and no other descriptor of any process has moved.
pub proof fn law_read_moves_one_descriptor(
    before: Seq<FdRow>,
    after: Seq<FdRow>,
    nr: i32,
    fd: i32,
    ino: u32,
    pos: u64,
    n: u64,
)
    requires
        resolved(before, nr, fd) == Ok::<Fd, i32>(Fd::File { ino, pos }),
        changed(before, after, nr, fd as int, Fd::File { ino, pos: moved(pos, n) }),
    ensures
        pos + n <= u64::MAX ==> resolved(after, nr, fd) == Ok::<Fd, i32>(
            Fd::File { ino, pos: (pos + n) as u64 },
        ),
        pos + n > u64::MAX ==> resolved(after, nr, fd) == Ok::<Fd, i32>(
            Fd::File { ino, pos: u64::MAX },
        ),
        forall|p: i32, k: i32|
            p != nr || k != fd ==> #[trigger] resolved(after, p, k) == resolved(before, p, k),
{
    assert forall|p: i32, k: i32| p != nr || k != fd implies #[trigger] resolved(after, p, k)
        == resolved(before, p, k) by {
        if 0 <= p < before.len() && p != nr {
            assert(after[p as int] == before[p as int]);
        }
    }
}

/// A descriptor resolves exactly when the process and the number are in the table
/// and something is open there, to what is open there; every other way of naming
/// one is `EBADF`.
pub proof fn law_resolve_reads_the_table(rows: Seq<FdRow>, nr: i32, fd: i32)
    ensures
        resolved(rows, nr, fd) matches Ok(e) ==> 0 <= nr < rows.len() && 0 <= fd < 8 && e
            == rows[nr as int]@[fd as int] && e != Fd::Unused,
        0 <= nr < rows.len() && 0 <= fd < 8 && rows[nr as int]@[fd as int] != Fd::Unused
            ==> resolved(rows, nr, fd) is Ok,
        resolved(rows, nr, fd) matches Err(e) ==> e == EBADF,
{
}

/// An open fails only when it must: `EBADF` for a process the table does not cover,
/// `EMFILE` when every descriptor it may hand out is open.
pub proof fn law_open_fails_only_when_full(rows: Seq<FdRow>, nr: i32)
    ensures
        !(0 <= nr < rows.len()) ==> alloc_result(rows, nr) == Err::<i32, i32>(EBADF),
        0 <= nr < rows.len() ==> (alloc_result(rows, nr) is Err <==> forall|k: int|
            FIRST_FREE_FD <= k < NR_FDS ==> #[trigger] rows[nr as int]@[k] != Fd::Unused),
        0 <= nr < rows.len() && alloc_result(rows, nr) is Err ==> alloc_result(rows, nr) == Err::<
            i32,
            i32,
        >(EMFILE),
{
    if 0 <= nr < rows.len() {
        let row = rows[nr as int]@;
        lemma_lowest(row, 3);
        if alloc_result(rows, nr) is Ok {
            assert(row[lowest(row)] == Fd::Unused);
        }
    }
}

} // verus!
