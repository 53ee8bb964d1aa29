//! The grant exercise: the same bytes read through a grant, without one, and from
//! a third party, and the copies that must be refused.
use vstd::prelude::*;
use vstd::slice::slice_subrange;
use vstd::string::*;
use crate::abi::callnr::{SAFECOPY_FROM, SAFECOPY_TO, SYS_COPY, SYS_SAFECOPY};
use crate::abi::com;
use crate::abi::com::{boot_endpoint, INIT_PROC_NR, SYSTEM, VFS_PROC_NR};
use crate::abi::endpoint::{Endpoint, NONE, SELF};
use crate::abi::errno::{EFAULT, EPERM, OK};
use crate::abi::grant;
use crate::abi::grant::{grant_id, CPF_DIRECT, CPF_MAGIC, CPF_READ};
use crate::abi::message::Message;
use crate::rt::grant as pool;
use crate::rt::grant::{Book, GrantPool};
use crate::rt::kcall;
use crate::rt::kcall::{sys_copy, sys_safecopy};
use crate::rt::payload;
use crate::rt::payload::{buf_addr, rd_i32, rd_u64};
use crate::rt::probe::{with_number, Probe, Run};
use crate::text;

verus! {

/// Bytes the exercise copies at most.
pub const GRANT_TEST_MAX: usize = 64;

/// Grants that can be outstanding at once.
pub const GRANT_SLOTS: usize = 8;

/// Where the third party's bytes are read.
pub const MAGIC_PROBE_VA: u64 = 0x0010_0000;

/// How many of them.
pub const MAGIC_PROBE_LEN: usize = 8;

/// An address nothing is mapped at.
pub const UNMAPPED_PROBE_VA: u64 = 0x4000_0000;

/// A request for the exercise.
#[derive(Copy, Clone, Debug, PartialEq, Eq, Structural)]
pub struct GrantTest {
    /// Whoever the kernel says sent the request, never a field of it: the copies
    /// below are privileged, and a client must not aim them at anyone else.
    pub granter: Endpoint,
    pub gid: i32,
    pub rw_gid: i32,
    pub raw_addr: u64,
    pub len: usize,
}

/// The length a request asks for, kept to the staging buffer.
pub open spec fn clamped(n: i32) -> usize {
    if 0 <= n <= GRANT_TEST_MAX {
        n as usize
    } else {
        GRANT_TEST_MAX
    }
}

/// What a request from `source` with payload `p` asks for, when it is one to take up.
pub open spec fn taken_up(source: Endpoint, p: Seq<u8>) -> Option<GrantTest> {
    if source == com::boot_spec(VFS_PROC_NR as int) {
        Some(
            GrantTest {
                granter: source,
                gid: payload::i32_field(p, 0),
                rw_gid: payload::i32_field(p, 8),
                raw_addr: payload::u64_field(p, 16),
                len: clamped(payload::i32_field(p, 4)),
            },
        )
    } else {
        None
    }
}

/// Take up a request. Only the file server has any business sending one.
pub fn handle_grant_test(msg: &Message) -> (g: Option<GrantTest>)
    ensures
        g == taken_up(msg.m_source, msg.payload@),
        g is Some ==> g->0.len <= GRANT_TEST_MAX,
{
    let granter: Endpoint = msg.m_source;
    if granter != boot_endpoint(VFS_PROC_NR) {
        return None;
    }
    let n: i32 = rd_i32(msg, 4);
    let len: usize = if n >= 0 && n <= 64 {
        n as usize
    } else {
        GRANT_TEST_MAX
    };
    Some(
        GrantTest {
            granter,
            gid: rd_i32(msg, 0),
            rw_gid: rd_i32(msg, 8),
            raw_addr: rd_u64(msg, 16),
            len,
        },
    )
}

/// The sum of the bytes, modulo two to the thirty-second power.
pub open spec fn sum_of(b: Seq<u8>) -> int
    decreases b.len(),
{
    if b.len() == 0 {
        0
    } else {
        (sum_of(b.drop_last()) + b.last()) % 0x1_0000_0000
    }
}

/// Compute [`sum_of`].
pub fn checksum(b: &[u8]) -> (s: u32)
    ensures
        s == sum_of(b@),
{
    let mut acc: u32 = 0;
    let mut i: usize = 0;
    while i < b.len()
        invariant
            i <= b@.len(),
            acc == sum_of(b@.take(i as int)),
        decreases b@.len() - i,
    {
        assert(b@.take(i + 1).drop_last() =~= b@.take(i as int));
        acc = acc.wrapping_add(b[i] as u32);
        i = i + 1;
    }
    assert(b@.take(i as int) =~= b@);
    acc
}

/// How far the exercise has come.
#[derive(Copy, Clone, Debug, PartialEq, Eq, Structural)]
pub enum Stage {
    /// Read through the grant.
    Granted,
    /// Read the same bytes without one; this is the sum of the first read.
    Raw(u32),
    /// Grant oneself the third party's bytes.
    Grant,
    /// Read them through this grant.
    Magic(i32),
    /// Take the grant back.
    Revoke(i32),
    /// The copies that must be refused.
    Denials,
    /// Nothing more.
    Stop,
}

/// What the exercise says, and does next, after the copy of stage `s` returned
/// `rc` with `data`.
pub open spec fn reported(len: int, s: Stage, rc: i32, data: Seq<u8>) -> (Stage, Seq<char>) {
    match s {
        Stage::Granted => if rc == OK {
            (
                Stage::Raw(sum_of(data.take(len)) as u32),
                "grant.test ok sum="@ + text::decimal(sum_of(data.take(len))) + (" len="@
                    + text::decimal(len)),
            )
        } else {
            (Stage::Stop, "grant.test FAIL rc="@ + text::decimal(rc as int))
        },
        Stage::Raw(sum) => (
            Stage::Grant,
            if rc != OK {
                "copy FAIL rc="@ + text::decimal(rc as int)
            } else if sum_of(data.take(len)) == sum {
                "copy ok match=1"@
            } else {
                "copy ok match=0"@
            },
        ),
        Stage::Magic(gid) => (
            Stage::Revoke(gid),
            if rc == OK {
                "magic ok len=8"@
            } else {
                "magic FAIL rc="@ + text::decimal(rc as int)
            },
        ),
        _ => (s, ""@),
    }
}

/// What the exercise does next when stage `s` needs the grant table, and the line
/// it prints, if any: the grant is issued, or it is taken back.
pub open spec fn tabled(s: Stage, issued: Result<i32, i32>) -> (Stage, Option<Seq<char>>) {
    match s {
        Stage::Grant => match issued {
            Ok(gid) => (Stage::Magic(gid), None),
            Err(e) => (Stage::Denials, Some("magic FAIL grant="@ + text::decimal(e as int))),
        },
        Stage::Revoke(_) => (Stage::Denials, None),
        _ => (s, None),
    }
}

impl GrantTest {
    /// Build the copy through the grant to `addr` in this process.
    pub fn grant_copy(&self, addr: u64) -> (m: Message)
        ensures
            m.carries(
                SYS_SAFECOPY,
                kcall::safecopy_payload(
                    SAFECOPY_FROM,
                    self.granter,
                    self.gid,
                    0,
                    addr,
                    self.len as u64,
                ),
            ),
    {
        sys_safecopy(SAFECOPY_FROM, self.granter, self.gid, 0, addr, self.len as u64)
    }

    /// Build the copy of the same bytes without a grant to `addr`.
    pub fn raw_copy(&self, addr: u64) -> (m: Message)
        ensures
            m.carries(
                SYS_COPY,
                kcall::copy_payload(self.granter, self.raw_addr, SELF, addr, self.len as u64),
            ),
    {
        sys_copy(self.granter, self.raw_addr, SELF, addr, self.len as u64)
    }

    /// The copy that stage `s` waits for, as it goes to the kernel: the first two
    /// fill the bytes at `buf`, the third party's fill those at `probe`.
    pub open spec fn asks(
        &self,
        s: Stage,
        own: Endpoint,
        buf: u64,
        probe: u64,
        m: Message,
    ) -> bool {
        match s {
            Stage::Granted => m.carries(
                SYS_SAFECOPY,
                kcall::safecopy_payload(
                    SAFECOPY_FROM,
                    self.granter,
                    self.gid,
                    0,
                    buf,
                    self.len as u64,
                ),
            ),
            Stage::Raw(_) => m.carries(
                SYS_COPY,
                kcall::copy_payload(self.granter, self.raw_addr, SELF, buf, self.len as u64),
            ),
            Stage::Magic(gid) => m.carries(
                SYS_SAFECOPY,
                kcall::safecopy_payload(SAFECOPY_FROM, own, gid, 0, probe, MAGIC_PROBE_LEN as u64),
            ),
            _ => false,
        }
    }

    /// Build the copy that stage `s` waits for, and say whom it is asked of: the
    /// kernel. The other stages make none.
    pub fn call(&self, s: Stage, own: Endpoint, buf: u64, probe: u64) -> (c: Option<
        (Endpoint, Message),
    >)
        ensures
            match c {
                Some((to, m)) => to == com::boot_spec(SYSTEM as int) && self.asks(
                    s,
                    own,
                    buf,
                    probe,
                    m,
                ),
                None => !(s is Granted) && !(s is Raw) && !(s is Magic),
            },
    {
        let system: Endpoint = boot_endpoint(SYSTEM);
        match s {
            Stage::Granted => Some((system, self.grant_copy(buf))),
            Stage::Raw(_) => Some((system, self.raw_copy(buf))),
            Stage::Magic(gid) => Some((system, magic_copy(own, gid, probe))),
            _ => None,
        }
    }

    /// Report a copy and go on. A failed first copy ends the exercise.
    pub fn step(&self, s: Stage, rc: i32, data: &[u8; 64]) -> (r: (Stage, String))
        requires
            self.len <= GRANT_TEST_MAX,
        ensures
            (r.0, r.1@) == reported(self.len as int, s, rc, data@),
    {
        let part = slice_subrange(data.as_slice(), 0, self.len);
        assert(part@ =~= data@.take(self.len as int));
        match s {
            Stage::Granted => {
                if rc == OK {
                    let sum: u32 = checksum(part);
                    let head = with_number("grant.test ok sum=", sum as i64);
                    let tail = with_number(" len=", self.len as i64);
                    (Stage::Raw(sum), text::concat(head.as_str(), tail.as_str()))
                } else {
                    (Stage::Stop, with_number("grant.test FAIL rc=", rc as i64))
                }
            },
            Stage::Raw(sum) => {
                if rc != OK {
                    (Stage::Grant, with_number("copy FAIL rc=", rc as i64))
                } else if checksum(part) == sum {
                    (Stage::Grant, "copy ok match=1".to_owned())
                } else {
                    (Stage::Grant, "copy ok match=0".to_owned())
                }
            },
            Stage::Magic(gid) => {
                if rc == OK {
                    (Stage::Revoke(gid), "magic ok len=8".to_owned())
                } else {
                    (Stage::Revoke(gid), with_number("magic FAIL rc=", rc as i64))
                }
            },
            _ => (s, "".to_owned()),
        }
    }
}

/// Grant this process a read of the first user process's memory.
pub fn magic_grant(
    grants: &mut GrantPool<8>,
    registered: Result<(), i32>,
    own: Endpoint,
) -> (r: Result<i32, i32>)
    requires
        old(grants).wf(),
    ensures
        final(grants).wf(),
        final(grants).registered_at == old(grants).registered_at,
        (r, final(grants).book()) == old(grants).issued(
            registered,
            CPF_MAGIC | CPF_READ,
            own,
            com::boot_spec(INIT_PROC_NR as int) as i32,
            MAGIC_PROBE_VA,
            MAGIC_PROBE_LEN as u64,
        ),
{
    grants.grant_magic(
        registered,
        own,
        boot_endpoint(INIT_PROC_NR),
        MAGIC_PROBE_VA,
        MAGIC_PROBE_LEN as u64,
        CPF_READ,
    )
}

/// Build the copy through that grant to `addr`.
pub fn magic_copy(own: Endpoint, gid: i32, addr: u64) -> (m: Message)
    ensures
        m.carries(
            SYS_SAFECOPY,
            kcall::safecopy_payload(SAFECOPY_FROM, own, gid, 0, addr, MAGIC_PROBE_LEN as u64),
        ),
{
    sys_safecopy(SAFECOPY_FROM, own, gid, 0, addr, MAGIC_PROBE_LEN as u64)
}

/// What stage `s` does to the grant table: the grant it issues, and the book
/// after it.
pub open spec fn table_step(
    g: GrantPool<8>,
    registered: Result<(), i32>,
    own: Endpoint,
    s: Stage,
) -> (Result<i32, i32>, Book) {
    match s {
        Stage::Grant => g.issued(
            registered,
            CPF_MAGIC | CPF_READ,
            own,
            com::boot_spec(INIT_PROC_NR as int) as i32,
            MAGIC_PROBE_VA,
            MAGIC_PROBE_LEN as u64,
        ),
        Stage::Revoke(gid) => (Ok(gid), g.revoked(registered, gid).1),
        _ => (Ok(0), g.book()),
    }
}

/// Issue the third party's grant, or take it back, and go on. A grant that is
/// refused is reported, and the copies that must be refused follow all the same.
pub fn table(
    grants: &mut GrantPool<8>,
    registered: Result<(), i32>,
    own: Endpoint,
    s: Stage,
) -> (r: (Stage, Option<String>))
    requires
        old(grants).wf(),
    ensures
        final(grants).wf(),
        final(grants).registered_at == old(grants).registered_at,
        ({
            let (issued, after) = table_step(*old(grants), registered, own, s);
            let (next, line) = tabled(s, issued);
            &&& final(grants).book() == after
            &&& r.0 == next
            &&& match r.1 {
                Some(t) => line == Some(t@),
                None => line is None,
            }
        }),
{
    match s {
        Stage::Grant => match magic_grant(grants, registered, own) {
            Ok(gid) => (Stage::Magic(gid), None),
            Err(e) => (Stage::Denials, Some(with_number("magic FAIL grant=", e as i64))),
        },
        Stage::Revoke(gid) => {
            let _ = grants.revoke(registered, gid);
            (Stage::Denials, None)
        },
        _ => (s, None),
    }
}

/// Whatever the third party's copy came to, its grant is taken back: the id names
/// nothing when the exercise goes on.
pub proof fn law_magic_grant_is_taken_back(
    g: GrantPool<8>,
    h: GrantPool<8>,
    own: Endpoint,
    len: int,
    rc: i32,
    data: Seq<u8>,
)
    requires
        g.wf(),
        g.registered_at != 0,
        table_step(g, Ok(()), own, Stage::Grant).0 is Ok,
        h.book() == table_step(g, Ok(()), own, Stage::Grant).1,
        h.registered_at == g.registered_at,
    ensures
        ({
            let gid = table_step(g, Ok(()), own, Stage::Grant).0->Ok_0;
            let (next, _) = reported(len, Stage::Magic(gid), rc, data);
            &&& pool::live(h.book().entries, gid)
            &&& next == Stage::Revoke(gid)
            &&& !pool::live(table_step(h, Ok(()), own, next).1.entries, gid)
        }),
{
    let gid = table_step(g, Ok(()), own, Stage::Grant).0->Ok_0;
    pool::law_issue_makes_live(
        g.book(),
        CPF_MAGIC | CPF_READ,
        own,
        com::boot_spec(INIT_PROC_NR as int) as i32,
        MAGIC_PROBE_VA,
        MAGIC_PROBE_LEN as u64,
    );
    pool::law_revoke_kills(h.book().entries, gid);
}

/// The probe is this copy.
pub open spec fn is_copy(
    p: Probe,
    name: Seq<char>,
    direction: i32,
    granter: Endpoint,
    gid: i32,
    offset: u64,
    addr: u64,
    want: i32,
) -> bool {
    &&& p.name@ == name
    &&& p.to == com::boot_spec(SYSTEM as int)
    &&& p.call.carries(
        SYS_SAFECOPY,
        kcall::safecopy_payload(direction, granter, gid, offset, addr, MAGIC_PROBE_LEN as u64),
    )
    &&& p.want == want
}

fn probe(
    name: &'static str,
    direction: i32,
    granter: Endpoint,
    gid: i32,
    offset: u64,
    addr: u64,
    want: i32,
) -> (p: Probe)
    ensures
        is_copy(p, name@, direction, granter, gid, offset, addr, want),
{
    Probe {
        name,
        to: boot_endpoint(SYSTEM),
        call: sys_safecopy(direction, granter, gid, offset, addr, MAGIC_PROBE_LEN as u64),
        want,
    }
}

/// The grants the refused copies need: one that names the file server, one that
/// is read-only, one that is revoked and its slot issued again, and one over
/// nothing. Each is valid in every respect but the one its copy violates.
pub ghost struct Setup {
    pub not_mine: i32,
    pub read_only: i32,
    pub stale: i32,
    pub unmapped: i32,
}

/// What setting those grants up comes to: the grants, or the line that says what
/// failed; and the book after it. The table is registered ahead of each of the
/// first three; once they stand it is known, and does not move.
pub open spec fn setup(
    b: Book,
    registered: Seq<Result<(), i32>>,
    granting: bool,
    own: Endpoint,
    vfs: Endpoint,
    addr: u64,
) -> (Result<Setup, Seq<char>>, Book) {
    let f = CPF_DIRECT | CPF_READ;
    let n = MAGIC_PROBE_LEN as u64;
    let (r1, b1) = pool::issue_when(b, registered[0], f, vfs, NONE, addr, n);
    let (r2, b2) = pool::issue_when(b1, registered[1], f, own, NONE, addr, n);
    let (r3, b3) = pool::issue_when(b2, registered[2], f, own, NONE, addr, n);
    let (rr, br) = pool::revoke_when(b3, granting, Ok(()), r3->Ok_0);
    let (r4, b4) = pool::issue(br, f, own, NONE, addr, n);
    let (r5, b5) = pool::issue(b4, f, own, NONE, UNMAPPED_PROBE_VA, n);
    if !(r1 is Ok && r2 is Ok && r3 is Ok) {
        (Err("grant.deny FAIL setup"@), b3)
    } else if rr is Err {
        (Err("grant.deny FAIL reissue"@), b3)
    } else if r4 is Err {
        (Err("grant.deny FAIL reissue"@), b4)
    } else if r5 is Err {
        (Err("grant.deny FAIL setup"@), b5)
    } else {
        (
            Ok(
                Setup {
                    not_mine: r1->Ok_0,
                    read_only: r2->Ok_0,
                    stale: r3->Ok_0,
                    unmapped: r5->Ok_0,
                },
            ),
            b5,
        )
    }
}

/// What a request for the refused copies names: the file server, its two grants,
/// and their length.
#[derive(Copy, Clone, Debug, PartialEq, Eq, Structural)]
pub struct Aims {
    pub vfs: Endpoint,
    pub gid: i32,
    pub rw_gid: i32,
    pub len: u64,
}

/// Setting the refused copies up over the bytes at `addr` takes the grants from
/// `before` to `after` and gives `r`.
pub open spec fn set_up(
    before: GrantPool<8>,
    after: GrantPool<8>,
    registered: Seq<Result<(), i32>>,
    own: Endpoint,
    aims: Aims,
    addr: u64,
    r: Result<Run, &'static str>,
) -> bool {
    let (res, book) = setup(
        before.book(),
        registered,
        before.registered_at != 0,
        own,
        aims.vfs,
        addr,
    );
    &&& after.wf()
    &&& after.registered_at == before.registered_at
    &&& after.book() == book
    &&& match r {
        Err(line) => res is Err && line@ == res->Err_0,
        Ok(run) => {
            let v = run.probes@;
            &&& res is Ok
            &&& run.wf()
            &&& run.battery@ == "grant.deny"@
            &&& run.had(Seq::empty())
            &&& v.len() == 7
            &&& is_copy(
                v[0],
                "grantee"@,
                SAFECOPY_FROM,
                own,
                res->Ok_0.not_mine,
                0,
                addr,
                EPERM,
            )
            &&& is_copy(
                v[1],
                "access"@,
                SAFECOPY_TO,
                own,
                res->Ok_0.read_only,
                0,
                addr,
                EPERM,
            )
            &&& is_copy(v[2], "seq"@, SAFECOPY_FROM, own, res->Ok_0.stale, 0, addr, EPERM)
            &&& is_copy(
                v[3],
                "idx"@,
                SAFECOPY_FROM,
                aims.vfs,
                grant::grant_id_spec(9999, 0) as i32,
                0,
                addr,
                EPERM,
            )
            &&& is_copy(v[4], "range"@, SAFECOPY_FROM, aims.vfs, aims.gid, aims.len, addr, EPERM)
            &&& is_copy(v[5], "rodata"@, SAFECOPY_TO, aims.vfs, aims.rw_gid, 0, addr, EFAULT)
            &&& is_copy(
                v[6],
                "unmapped"@,
                SAFECOPY_FROM,
                own,
                res->Ok_0.unmapped,
                0,
                addr,
                EFAULT,
            )
        },
    }
}

/// Set up the copies that must be refused. `registered` is what came of registering
/// the table ahead of each of the first three grants.
pub fn grant_denials(
    grants: &mut GrantPool<8>,
    registered: [Result<(), i32>; 3],
    own: Endpoint,
    aims: Aims,
    addr: u64,
) -> (r: Result<Run, &'static str>)
    requires
        old(grants).wf(),
    ensures
        set_up(*old(grants), *final(grants), registered@, own, aims, addr, r),
{
    let n: u64 = MAGIC_PROBE_LEN as u64;
    let g1 = grants.grant_direct(registered[0], aims.vfs, addr, n, CPF_READ);
    let g2 = grants.grant_direct(registered[1], own, addr, n, CPF_READ);
    let g3 = grants.grant_direct(registered[2], own, addr, n, CPF_READ);
    let (not_mine, read_only, stale): (i32, i32, i32) = match (g1, g2, g3) {
        (Ok(a), Ok(b), Ok(c)) => (a, b, c),
        _ => {
            return Err("grant.deny FAIL setup");
        },
    };
    if grants.revoke(Ok(()), stale).is_err() {
        return Err("grant.deny FAIL reissue");
    }
    if grants.grant_direct(Ok(()), own, addr, n, CPF_READ).is_err() {
        return Err("grant.deny FAIL reissue");
    }
    let unmapped: i32 = match grants.grant_direct(Ok(()), own, UNMAPPED_PROBE_VA, n, CPF_READ) {
        Ok(g) => g,
        Err(_) => {
            return Err("grant.deny FAIL setup");
        },
    };
    let mut v: Vec<Probe> = Vec::new();
    v.push(probe("grantee", SAFECOPY_FROM, own, not_mine, 0, addr, EPERM));
    v.push(probe("access", SAFECOPY_TO, own, read_only, 0, addr, EPERM));
    v.push(probe("seq", SAFECOPY_FROM, own, stale, 0, addr, EPERM));
    v.push(probe("idx", SAFECOPY_FROM, aims.vfs, grant_id(9999, 0), 0, addr, EPERM));
    v.push(probe("range", SAFECOPY_FROM, aims.vfs, aims.gid, aims.len, addr, EPERM));
    v.push(probe("rodata", SAFECOPY_TO, aims.vfs, aims.rw_gid, 0, addr, EFAULT));
    v.push(probe("unmapped", SAFECOPY_FROM, own, unmapped, 0, addr, EFAULT));
    Ok(Run::new("grant.deny", v))
}

/// Set the refused copies up over a buffer of this process, which the kernel is
/// never to touch: it stays as it is. Where it lies is up to the machine.
pub fn grant_denials_over(
    grants: &mut GrantPool<8>,
    registered: [Result<(), i32>; 3],
    own: Endpoint,
    aims: Aims,
    scratch: &mut [u8; 8],
) -> (r: Result<Run, &'static str>)
    requires
        old(grants).wf(),
    ensures
        final(scratch)@ == old(scratch)@,
        exists|addr: u64|
            #[trigger] set_up(*old(grants), *final(grants), registered@, own, aims, addr, r),
{
    let addr: u64 = buf_addr(scratch);
    grant_denials(grants, registered, own, aims, addr)
}

/// Only the file server's own request is taken up, and the copies go to whoever sent it,
/// never to a process a field names. A length is taken as it is from 0 to 64; any other
/// is taken as 64, so that no copy is longer than the buffer.
pub proof fn law_request_is_the_senders_own(source: Endpoint, p: Seq<u8>)
    ensures
        taken_up(source, p) is Some <==> source == com::boot_spec(VFS_PROC_NR as int),
        taken_up(source, p) matches Some(g) ==> {
            let n = payload::i32_field(p, 4);
            &&& g.granter == source
            &&& g.gid == payload::i32_field(p, 0)
            &&& g.rw_gid == payload::i32_field(p, 8)
            &&& g.raw_addr == payload::u64_field(p, 16)
            &&& 0 <= n <= 64 ==> g.len == n
            &&& n < 0 || n > 64 ==> g.len == 64
        },
{
}

/// The checksum is the sum of all bytes, each counted once, up to 32 bits: parts add up,
/// one byte counts its own value, and nothing counts nothing.
pub proof fn law_checksum_adds_up(a: Seq<u8>, b: Seq<u8>, x: u8)
    ensures
        sum_of(Seq::empty()) == 0,
        sum_of(seq![x]) == x,
        sum_of(a + b) == (sum_of(a) + sum_of(b)) % 0x1_0000_0000,
        0 <= sum_of(a) < 0x1_0000_0000,
    decreases b.len(),
{
    assert(seq![x].drop_last() =~= Seq::<u8>::empty());
    lemma_sum_range(a);
    if b.len() == 0 {
        assert(a + b =~= a);
    } else {
        law_checksum_adds_up(a, b.drop_last(), x);
        assert((a + b).drop_last() =~= a + b.drop_last());
        assert((a + b).last() == b.last());
        lemma_sum_range(b.drop_last());
    }
}

proof fn lemma_sum_range(a: Seq<u8>)
    ensures
        0 <= sum_of(a) < 0x1_0000_0000,
{
}

/// The exercise goes through its copies in order. A failed first copy ends it; whatever
/// the others come to, it goes on: the second copy to the third party's grant, and that
/// copy to taking the same grant back.
pub proof fn law_exercise_goes_on(len: int, rc: i32, data: Seq<u8>, sum: u32, gid: i32)
    requires
        0 <= len <= data.len(),
    ensures
        reported(len, Stage::Granted, rc, data).0 is Raw <==> rc == OK,
        reported(len, Stage::Granted, rc, data).0 is Stop <==> rc != OK,
        rc == OK ==> reported(len, Stage::Granted, rc, data).0->Raw_0 == sum_of(data.take(len)),
        reported(len, Stage::Raw(sum), rc, data).0 == Stage::Grant,
        reported(len, Stage::Magic(gid), rc, data).0 == Stage::Revoke(gid),
        tabled(Stage::Revoke(gid), Ok(gid)) == (Stage::Denials, None::<Seq<char>>),
        tabled(Stage::Grant, Ok(gid)) == (Stage::Magic(gid), None::<Seq<char>>),
        tabled(Stage::Grant, Err(rc)).0 == Stage::Denials,
        tabled(Stage::Grant, Err(rc)).1 is Some,
{
    lemma_sum_range(data.take(len));
}

/// The second copy is told to match exactly when both read bytes of the same sum.
pub proof fn law_match_is_told_apart(len: int, data: Seq<u8>, sum: u32, rc: i32)
    ensures
        reported(len, Stage::Raw(sum), OK, data).1 == "copy ok match=1"@ <==> sum_of(data.take(len))
            == sum,
        reported(len, Stage::Raw(sum), OK, data).1 == "copy ok match=0"@ <==> sum_of(data.take(len))
            != sum,
        rc != OK ==> reported(len, Stage::Raw(sum), rc, data).1 == "copy FAIL rc="@ + text::decimal(
            rc as int,
        ),
        rc != OK ==> reported(len, Stage::Granted, rc, data).1 == "grant.test FAIL rc="@
            + text::decimal(rc as int),
        reported(len, Stage::Granted, OK, data).1 == "grant.test ok sum="@ + text::decimal(
            sum_of(data.take(len)),
        ) + " len="@ + text::decimal(len),
{
    reveal_strlit("copy ok match=1");
    reveal_strlit("copy ok match=0");
    assert("copy ok match=1"@[14] != "copy ok match=0"@[14]);
    let head = "grant.test ok sum="@ + text::decimal(sum_of(data.take(len)));
    assert(head + (" len="@ + text::decimal(len)) =~= head + " len="@ + text::decimal(len));
}

/// What each copy asks of the kernel, field by field: the first reads the sender's
/// grant, the second the same bytes of the sender by address, both as many as were asked
/// for and both into the same buffer; the third reads eight bytes through this process's
/// own grant.
pub proof fn law_copies_are_aimed(
    g: GrantTest,
    own: Endpoint,
    buf: u64,
    probe: u64,
    sum: u32,
    gid: i32,
    m: Message,
)
    ensures
        g.asks(Stage::Granted, own, buf, probe, m) ==> {
            let p = m.payload@;
            &&& m.m_type == SYS_SAFECOPY
            &&& payload::i32_field(p, 0) == SAFECOPY_FROM
            &&& payload::i32_field(p, 4) == g.granter
            &&& payload::i32_field(p, 8) == g.gid
            &&& payload::u64_field(p, 16) == 0
            &&& payload::u64_field(p, 24) == buf
            &&& payload::u64_field(p, 32) == g.len
        },
        g.asks(Stage::Raw(sum), own, buf, probe, m) ==> {
            let p = m.payload@;
            &&& m.m_type == SYS_COPY
            &&& payload::i32_field(p, 0) == g.granter
            &&& payload::u64_field(p, 16) == g.raw_addr
            &&& payload::i32_field(p, 4) == SELF
            &&& payload::u64_field(p, 24) == buf
            &&& payload::u64_field(p, 32) == g.len
        },
        g.asks(Stage::Magic(gid), own, buf, probe, m) ==> {
            let p = m.payload@;
            &&& m.m_type == SYS_SAFECOPY
            &&& payload::i32_field(p, 0) == SAFECOPY_FROM
            &&& payload::i32_field(p, 4) == own
            &&& payload::i32_field(p, 8) == gid
            &&& payload::u64_field(p, 24) == probe
            &&& payload::u64_field(p, 32) == 8
        },
{
    kcall::law_safecopy_reads_back(SAFECOPY_FROM, g.granter, g.gid, 0, buf, g.len as u64);
    kcall::law_copy_reads_back(g.granter, g.raw_addr, SELF, buf, g.len as u64);
    kcall::law_safecopy_reads_back(SAFECOPY_FROM, own, gid, 0, probe, 8);
}

/// The battery of refused copies: seven, the first five of which must be refused for want
/// of permission and the last two because the memory cannot be had; each moves eight
/// bytes and is asked of the kernel.
pub proof fn law_refusals_are_expected(
    before: GrantPool<8>,
    after: GrantPool<8>,
    registered: Seq<Result<(), i32>>,
    own: Endpoint,
    aims: Aims,
    addr: u64,
    r: Result<Run, &'static str>,
    k: int,
)
    requires
        set_up(before, after, registered, own, aims, addr, r),
        r is Ok,
        0 <= k < 7,
    ensures
        r->Ok_0.probes@.len() == 7,
        r->Ok_0.probes@[k].want == (if k < 5 {
            EPERM
        } else {
            EFAULT
        }),
        r->Ok_0.probes@[k].to == com::boot_spec(SYSTEM as int),
        payload::i32_field(r->Ok_0.probes@[k].call.payload@, 4) == (if 3 <= k <= 5 {
            aims.vfs
        } else {
            own
        }),
        payload::i32_field(r->Ok_0.probes@[k].call.payload@, 0) == (if k == 1 || k == 5 {
            SAFECOPY_TO
        } else {
            SAFECOPY_FROM
        }),
        payload::u64_field(r->Ok_0.probes@[k].call.payload@, 16) == (if k == 4 {
            aims.len
        } else {
            0
        }),
{
    let res = setup(before.book(), registered, before.registered_at != 0, own, aims.vfs, addr).0;
    let s = res->Ok_0;
    if k == 0 {
        kcall::law_safecopy_reads_back(SAFECOPY_FROM, own, s.not_mine, 0, addr, 8);
    } else if k == 1 {
        kcall::law_safecopy_reads_back(SAFECOPY_TO, own, s.read_only, 0, addr, 8);
    } else if k == 2 {
        kcall::law_safecopy_reads_back(SAFECOPY_FROM, own, s.stale, 0, addr, 8);
    } else if k == 3 {
        kcall::law_safecopy_reads_back(
            SAFECOPY_FROM,
            aims.vfs,
            grant::grant_id_spec(9999, 0) as i32,
            0,
            addr,
            8,
        );
    } else if k == 4 {
        kcall::law_safecopy_reads_back(SAFECOPY_FROM, aims.vfs, aims.gid, aims.len, addr, 8);
    } else if k == 5 {
        kcall::law_safecopy_reads_back(SAFECOPY_TO, aims.vfs, aims.rw_gid, 0, addr, 8);
    } else {
        kcall::law_safecopy_reads_back(SAFECOPY_FROM, own, s.unmapped, 0, addr, 8);
    }
}

} // verus!
