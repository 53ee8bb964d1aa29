//! What the file server says and sends before it serves anyone: where its peers
//! are, what is mounted, and the driver exercise.
use vstd::prelude::*;
use vstd::string::*;
use crate::abi::callnr::{CDEV_MAX_IO, CDEV_MINOR_CONSOLE, CDEV_WRITE, PM_GRANT_TEST};
use crate::abi::com;
use crate::abi::com::{boot_endpoint, PM_PROC_NR, VFS_PROC_NR};
use crate::abi::endpoint::{Endpoint, NONE};
use crate::abi::errno::{ENXIO, EPERM};
use crate::abi::grant::{CPF_DIRECT, CPF_READ, CPF_WRITE, GRANT_MAX_IDX, GRANT_MAX_SEQ};
use crate::abi::message::Message;
use crate::pm::granttest;
use crate::rt::cdev;
use crate::rt::grant as pool;
use crate::rt::grant::{Book, GrantPool};
use crate::rt::payload;
use crate::rt::payload::{wr_i32, wr_u64};
use crate::rt::probe::{with_number, Probe, Run};
use crate::text;
use crate::vfs::fs::Mount;

verus! {

/// Bytes of the buffer granted in the grant exercise.
pub const GRANT_TEST_LEN: usize = 64;

/// A byte of that buffer: the pattern changes when a piece is lost or doubled.
pub open spec fn pattern_byte(i: int) -> u8 {
    ((i * 37 + 11) % 256) as u8
}

/// The granted buffer.
pub fn grant_test_pattern() -> (b: [u8; 64])
    ensures
        b@ == Seq::new(64, |i: int| pattern_byte(i)),
{
    let mut b = [0u8;64];
    let mut i: usize = 0;
    while i < GRANT_TEST_LEN
        invariant
            i <= 64,
            forall|k: int| 0 <= k < i ==> b@[k] == pattern_byte(k),
        decreases 64 - i,
    {
        b[i] = ((i * 37 + 11) % 256) as u8;
        i = i + 1;
    }
    assert(b@ =~= Seq::new(64, |i: int| pattern_byte(i)));
    b
}

/// The line the driver is asked to print.
pub const TTY_BANNER: &'static str = "minix.rs vfs: hello via CDEV_WRITE\n";

/// Start of the line that is longer than one transfer.
pub const RULE_PREFIX: &'static str = "minix.rs vfs: short-write rule ";

/// What follows the part that fits, and must never be printed.
pub const RULE_TAIL: &'static str = "TRUNCATE";

/// Length of that line: eight bytes past one transfer.
pub const TTY_RULE_LEN: usize = CDEV_MAX_IO + 8;

/// A line longer than one transfer: a prefix, a rule, the line's end exactly where
/// the transfer is cut, and a tail behind it.
pub open spec fn rule(prefix: Seq<u8>, tail: Seq<u8>) -> Seq<u8> {
    Seq::new(
        264,
        |i: int|
            if i < prefix.len() {
                prefix[i]
            } else if i < CDEV_MAX_IO - 1 {
                45u8
            } else if i == CDEV_MAX_IO - 1 {
                10u8
            } else {
                tail[i - CDEV_MAX_IO]
            },
    )
}

/// The line longer than one transfer.
pub fn tty_rule_pattern() -> (b: [u8; 264])
    ensures
        b@ == rule(RULE_PREFIX.spec_bytes(), RULE_TAIL.spec_bytes()),
{
    let mut b = [45u8;264];
    let prefix = RULE_PREFIX.as_bytes();
    let tail = RULE_TAIL.as_bytes();
    proof {
        reveal_strlit("minix.rs vfs: short-write rule ");
        reveal_strlit("TRUNCATE");
        is_ascii_spec_bytes(RULE_PREFIX);
        is_ascii_spec_bytes(RULE_TAIL);
        assert(vstd::utf8::is_ascii_chars(RULE_PREFIX@));
        assert(vstd::utf8::is_ascii_chars(RULE_TAIL@));
    }
    let mut i: usize = 0;
    while i < prefix.len()
        invariant
            i <= prefix@.len(),
            prefix@.len() == 31,
            forall|k: int| 0 <= k < i ==> b@[k] == prefix@[k],
            forall|k: int| i <= k < 264 ==> b@[k] == 45u8,
        decreases prefix@.len() - i,
    {
        b[i] = prefix[i];
        i = i + 1;
    }
    b[CDEV_MAX_IO - 1] = 10;
    let mut j: usize = 0;
    while j < tail.len()
        invariant
            j <= tail@.len(),
            tail@.len() == 8,
            prefix@.len() == 31,
            forall|k: int| 0 <= k < 31 ==> b@[k] == prefix@[k],
            forall|k: int| 31 <= k < 255 ==> b@[k] == 45u8,
            b@[255] == 10u8,
            forall|k: int| 0 <= k < j ==> b@[256 + k] == tail@[k],
        decreases tail@.len() - j,
    {
        b[CDEV_MAX_IO + j] = tail[j];
        j = j + 1;
    }
    assert(b@ =~= rule(prefix@, tail@));
    b
}

/// Where a peer is taken to be, and the line that says so.
pub open spec fn peer_at(label: Seq<char>, looked_up: Result<Endpoint, i32>, boot: Endpoint) -> (
    Endpoint,
    Seq<char>,
) {
    match looked_up {
        Ok(ep) => (ep, label + " ok ep="@ + text::decimal(ep as int)),
        Err(rc) => (
            boot,
            label + " FAIL rc="@ + text::decimal(rc as int) + (" fallback="@ + text::decimal(
                boot as int,
            )),
        ),
    }
}

/// Where a peer is: as the directory says, or else where it was at boot; and the
/// line that says which.
pub fn peer_endpoint(label: &str, looked_up: Result<Endpoint, i32>, boot: Endpoint) -> (r: (
    Endpoint,
    String,
))
    ensures
        (r.0, r.1@) == peer_at(label@, looked_up, boot),
{
    match looked_up {
        Ok(ep) => {
            let tail = with_number(" ok ep=", ep as i64);
            let s = text::concat(label, tail.as_str());
            assert(s@ =~= label@ + " ok ep="@ + text::decimal(ep as int));
            (ep, s)
        },
        Err(rc) => {
            let mid = with_number(" FAIL rc=", rc as i64);
            let tail = with_number(" fallback=", boot as i64);
            let s = text::concat3(label, mid.as_str(), tail.as_str());
            assert(s@ =~= label@ + " FAIL rc="@ + text::decimal(rc as int) + (" fallback="@
                + text::decimal(boot as int)));
            (boot, s)
        },
    }
}

/// The line that says what mounting at boot came to.
pub open spec fn mount_text(r: Result<Mount, i32>) -> Seq<char> {
    match r {
        Ok(m) => "fs.mount ok root="@ + text::decimal(m.root as int) + (" bs="@ + text::decimal(
            m.block_size as int,
        )) + (" blocks="@ + text::decimal(m.blocks as int)),
        Err(rc) => "fs.mount FAIL rc="@ + text::decimal(rc as int),
    }
}

/// What mounting at boot came to.
pub fn mount_line(r: Result<Mount, i32>) -> (s: String)
    ensures
        s@ == mount_text(r),
{
    match r {
        Ok(m) => {
            let a = with_number("fs.mount ok root=", m.root as i64);
            let b = with_number(" bs=", m.block_size as i64);
            let c = with_number(" blocks=", m.blocks as i64);
            text::concat3(a.as_str(), b.as_str(), c.as_str())
        },
        Err(rc) => with_number("fs.mount FAIL rc=", rc as i64),
    }
}

/// The payload of the grant exercise: both grants, the length, and the address
/// that the same bytes can be read at without one. It names no granter.
pub open spec fn exercise_payload(gid: i32, rw_gid: i32, addr: u64) -> Seq<u8> {
    let p = payload::with_i32(payload::zero_payload(), 0, gid);
    let p = payload::with_i32(payload::with_i32(p, 4, GRANT_TEST_LEN as i32), 8, rw_gid);
    payload::with_u64(p, 16, addr)
}

/// The two grants of the exercise, and the book after them.
pub open spec fn exercise_grants(b: Book, registered: Seq<Result<(), i32>>, addr: u64) -> (
    Result<i32, i32>,
    Result<i32, i32>,
    Book,
) {
    let pm = com::boot_spec(PM_PROC_NR as int) as i32;
    let n = GRANT_TEST_LEN as u64;
    let (r1, b1) = pool::issue_when(
        b,
        registered[0],
        CPF_DIRECT | CPF_READ,
        pm,
        NONE,
        addr,
        n,
    );
    let (r2, b2) = pool::issue_when(
        b1,
        registered[1],
        CPF_DIRECT | (CPF_READ | CPF_WRITE),
        pm,
        NONE,
        addr,
        n,
    );
    (r1, r2, b2)
}

/// Grant the process manager the buffer at `addr`, once as it is and once
/// claiming that it can be written, and build the message that tells it so. Nothing
/// is sent when either grant fails. The table is registered ahead of each grant;
/// `registered` is what came of that.
pub fn grant_test(
    grants: &mut GrantPool<8>,
    registered: [Result<(), i32>; 2],
    addr: u64,
) -> (c: Option<(Endpoint, Message)>)
    requires
        old(grants).wf(),
    ensures
        final(grants).wf(),
        final(grants).registered_at == old(grants).registered_at,
        ({
            let pm = com::boot_spec(PM_PROC_NR as int) as i32;
            let (r1, r2, b2) = exercise_grants(old(grants).book(), registered@, addr);
            &&& final(grants).book() == b2
            &&& c is Some == (r1 is Ok && r2 is Ok)
            &&& c is Some ==> (c->0).0 == pm && (c->0).1.carries(
                PM_GRANT_TEST,
                exercise_payload(r1->Ok_0, r2->Ok_0, addr),
            )
        }),
{
    let pm: Endpoint = boot_endpoint(PM_PROC_NR);
    let n: u64 = GRANT_TEST_LEN as u64;
    let g1 = grants.grant_direct(registered[0], pm, addr, n, CPF_READ);
    let g2 = grants.grant_direct(registered[1], pm, addr, n, CPF_READ | CPF_WRITE);
    match (g1, g2) {
        (Ok(gid), Ok(rw_gid)) => {
            let mut m = Message::request(PM_GRANT_TEST);
            wr_i32(&mut m, 0, gid);
            wr_i32(&mut m, 4, GRANT_TEST_LEN as i32);
            wr_i32(&mut m, 8, rw_gid);
            wr_u64(&mut m, 16, addr);
            Some((pm, m))
        },
        _ => None,
    }
}

/// Build a write of `len` bytes from `offset` on through grant `gid`.
pub fn cdev_write(minor: i32, gid: i32, len: i32, offset: u64) -> (m: Message)
    ensures
        m.carries(
            CDEV_WRITE,
            cdev::request_payload((cdev::Request { minor, gid, len, offset })),
        ),
{
    cdev::build(CDEV_WRITE, cdev::Request { minor, gid, len, offset })
}

/// The two lines the driver is asked to print.
#[derive(Copy, Clone, Debug, PartialEq, Eq, Structural)]
pub enum Part {
    /// One that a single transfer carries.
    Banner,
    /// One that is longer.
    Rule,
}

/// How far the driver exercise has come.
#[derive(Copy, Clone, Debug, PartialEq, Eq, Structural)]
pub enum Driver {
    /// Grant the driver a line.
    Grant(Part),
    /// Ask it to print the line through this grant.
    Send(Part, i32),
    /// Take the grant back.
    Revoke(Part, i32),
    /// The writes that must be refused.
    Denials,
    /// Nothing more.
    Stop,
}

/// Bytes of a line.
pub open spec fn part_len(p: Part) -> int {
    match p {
        Part::Banner => 35,
        Part::Rule => TTY_RULE_LEN as int,
    }
}

/// The line that says that a grant could not be had.
pub open spec fn ungranted(p: Part) -> Seq<char> {
    match p {
        Part::Banner => "cdev.write FAIL grant"@,
        Part::Rule => "cdev.short FAIL grant"@,
    }
}

/// What a write came to. The banner's count must be its length; the long line's
/// must be what one transfer carries.
pub open spec fn written(p: Part, rc: i32) -> Seq<char> {
    match p {
        Part::Banner => if rc == part_len(p) {
            "cdev.write ok match=1"@
        } else {
            "cdev.write FAIL rc="@ + text::decimal(rc as int)
        },
        Part::Rule => if rc == CDEV_MAX_IO {
            "cdev.short ok n="@ + text::decimal(rc as int)
        } else {
            "cdev.short FAIL rc="@ + text::decimal(rc as int)
        },
    }
}

/// The stage after a line's grant was taken back.
pub open spec fn after_part(p: Part) -> Driver {
    match p {
        Part::Banner => Driver::Grant(Part::Rule),
        Part::Rule => Driver::Denials,
    }
}

impl Part {
    /// Bytes of this line.
    pub fn len(self) -> (n: u64)
        ensures
            n == part_len(self),
    {
        match self {
            Part::Banner => 35,
            Part::Rule => TTY_RULE_LEN as u64,
        }
    }
}

/// Both lines are as long as they are said to be.
pub proof fn law_parts_are_whole()
    ensures
        TTY_BANNER.spec_bytes().len() == part_len(Part::Banner),
        rule(RULE_PREFIX.spec_bytes(), RULE_TAIL.spec_bytes()).len() == part_len(Part::Rule),
        part_len(Part::Banner) <= CDEV_MAX_IO < part_len(Part::Rule),
{
    reveal_strlit("minix.rs vfs: hello via CDEV_WRITE\n");
    is_ascii_spec_bytes(TTY_BANNER);
    assert(vstd::utf8::is_ascii_chars(TTY_BANNER@));
}

/// What stage `d` does to the grant table: the grant it issues, and the book after
/// it. `addr` is where the line lies.
pub open spec fn table_step(
    g: GrantPool<8>,
    registered: Result<(), i32>,
    tty: Endpoint,
    addr: u64,
    d: Driver,
) -> (Result<i32, i32>, Book) {
    match d {
        Driver::Grant(p) => g.issued(
            registered,
            CPF_DIRECT | CPF_READ,
            tty,
            NONE,
            addr,
            part_len(p) as u64,
        ),
        Driver::Revoke(_, gid) => (Ok(gid), g.revoked(registered, gid).1),
        _ => (Ok(0), g.book()),
    }
}

/// What the exercise does next when stage `d` needs the grant table, and the line
/// it prints, if any. Without a grant it stops.
pub open spec fn tabled(d: Driver, issued: Result<i32, i32>) -> (Driver, Option<Seq<char>>) {
    match d {
        Driver::Grant(p) => match issued {
            Ok(gid) => (Driver::Send(p, gid), None),
            Err(_) => (Driver::Stop, Some(ungranted(p))),
        },
        Driver::Revoke(p, _) => (after_part(p), None),
        _ => (d, None),
    }
}

/// Grant the driver a line, or take the grant back, and go on.
pub fn tty_table(
    grants: &mut GrantPool<8>,
    registered: Result<(), i32>,
    tty: Endpoint,
    addr: u64,
    d: Driver,
) -> (r: (Driver, Option<&'static str>))
    requires
        old(grants).wf(),
    ensures
        final(grants).wf(),
        final(grants).registered_at == old(grants).registered_at,
        ({
            let (issued, after) = table_step(*old(grants), registered, tty, addr, d);
            let (next, line) = tabled(d, issued);
            &&& final(grants).book() == after
            &&& r.0 == next
            &&& match r.1 {
                Some(t) => line == Some(t@),
                None => line is None,
            }
        }),
{
    match d {
        Driver::Grant(p) => match grants.grant_direct(registered, tty, addr, p.len(), CPF_READ) {
            Ok(gid) => (Driver::Send(p, gid), None),
            Err(_) => match p {
                Part::Banner => (Driver::Stop, Some("cdev.write FAIL grant")),
                Part::Rule => (Driver::Stop, Some("cdev.short FAIL grant")),
            },
        },
        Driver::Revoke(p, gid) => {
            let _ = grants.revoke(registered, gid);
            match p {
                Part::Banner => (Driver::Grant(Part::Rule), None),
                Part::Rule => (Driver::Denials, None),
            }
        },
        _ => (d, None),
    }
}

/// The write that stage `d` waits for: the whole line, to the console of the driver
/// `tty`.
pub fn tty_call(d: Driver, tty: Endpoint) -> (c: Option<(Endpoint, Message)>)
    ensures
        c is Some <==> d is Send,
        d matches Driver::Send(p, gid) ==> (c->0).0 == tty && (c->0).1.carries(
            CDEV_WRITE,
            cdev::request_payload(
                (cdev::Request {
                    minor: CDEV_MINOR_CONSOLE,
                    gid,
                    len: part_len(p) as i32,
                    offset: 0,
                }),
            ),
        ),
{
    match d {
        Driver::Send(p, gid) => Some(
            (tty, cdev_write(CDEV_MINOR_CONSOLE, gid, p.len() as i32, 0)),
        ),
        _ => None,
    }
}

/// Take the driver's answer to a write: say what it came to, and go on to take the
/// grant back.
pub fn tty_answered(d: Driver, rc: i32) -> (r: (Driver, Option<String>))
    ensures
        match d {
            Driver::Send(p, gid) => r.0 == Driver::Revoke(p, gid) && r.1 is Some && r.1->0@
                == written(p, rc),
            _ => r.0 == d && r.1 is None,
        },
{
    match d {
        Driver::Send(p, gid) => {
            let line = match p {
                Part::Banner => if rc == p.len() as i32 {
                    "cdev.write ok match=1".to_owned()
                } else {
                    with_number("cdev.write FAIL rc=", rc as i64)
                },
                Part::Rule => if rc == CDEV_MAX_IO as i32 {
                    with_number("cdev.short ok n=", rc as i64)
                } else {
                    with_number("cdev.short FAIL rc=", rc as i64)
                },
            };
            (Driver::Revoke(p, gid), Some(line))
        },
        _ => (d, None),
    }
}

/// The probe is this write.
pub open spec fn is_write(
    p: Probe,
    name: Seq<char>,
    tty: Endpoint,
    minor: i32,
    gid: i32,
    len: i32,
    want: i32,
) -> bool {
    &&& p.name@ == name
    &&& p.to == tty
    &&& p.call.carries(
        CDEV_WRITE,
        cdev::request_payload((cdev::Request { minor, gid, len, offset: 0 })),
    )
    &&& p.want == want
}

/// The writes that must be refused, and the grants they need.
pub struct Denials {
    pub run: Run,
    pub good: i32,
    pub not_mine: i32,
}

/// Set up the two writes that must be refused: a good grant aimed at a device that
/// does not exist, and a grant that names somebody else. When a grant could not be
/// had, the line that says so. The table is registered ahead of each grant;
/// `registered` is what came of that.
pub fn cdev_denials(
    grants: &mut GrantPool<8>,
    registered: [Result<(), i32>; 2],
    tty: Endpoint,
    addr: u64,
    len: u64,
) -> (r: Result<Denials, &'static str>)
    requires
        old(grants).wf(),
        len <= i32::MAX,
    ensures
        final(grants).wf(),
        final(grants).registered_at == old(grants).registered_at,
        ({
            let f = CPF_DIRECT | CPF_READ;
            let pm = com::boot_spec(PM_PROC_NR as int) as i32;
            let b = old(grants).book();
            let (r1, b1) = pool::issue_when(b, registered@[0], f, tty, NONE, addr, len);
            let (r2, b2) = pool::issue_when(b1, registered@[1], f, pm, NONE, addr, len);
            &&& final(grants).book() == b2
            &&& match r {
                Err(line) => {
                    &&& r1 is Err || r2 is Err
                    &&& line@ == "cdev.deny FAIL setup"@
                },
                Ok(d) => {
                    let v = d.run.probes@;
                    let n = len as i32;
                    &&& r1 == Ok::<i32, i32>(d.good)
                    &&& r2 == Ok::<i32, i32>(d.not_mine)
                    &&& d.run.wf()
                    &&& d.run.battery@ == "cdev.deny"@
                    &&& d.run.had(Seq::empty())
                    &&& v.len() == 2
                    &&& is_write(v[0], "bad-minor"@, tty, 7, d.good, n, ENXIO)
                    &&& is_write(
                        v[1],
                        "not-mine"@,
                        tty,
                        CDEV_MINOR_CONSOLE,
                        d.not_mine,
                        n,
                        EPERM,
                    )
                },
            }
        }),
{
    let g1 = grants.grant_direct(registered[0], tty, addr, len, CPF_READ);
    let g2 = grants.grant_direct(registered[1], boot_endpoint(PM_PROC_NR), addr, len, CPF_READ);
    match (g1, g2) {
        (Ok(good), Ok(not_mine)) => {
            let mut v: Vec<Probe> = Vec::new();
            v.push(
                Probe {
                    name: "bad-minor",
                    to: tty,
                    call: cdev_write(7, good, len as i32, 0),
                    want: ENXIO,
                },
            );
            v.push(
                Probe {
                    name: "not-mine",
                    to: tty,
                    call: cdev_write(CDEV_MINOR_CONSOLE, not_mine, len as i32, 0),
                    want: EPERM,
                },
            );
            Ok(Denials { run: Run::new("cdev.deny", v), good, not_mine })
        },
        _ => Err("cdev.deny FAIL setup"),
    }
}

impl Denials {
    /// Take both grants back, whatever the writes came to. The table is registered
    /// ahead of each.
    pub fn finish(&self, grants: &mut GrantPool<8>, registered: [Result<(), i32>; 2])
        requires
            old(grants).wf(),
        ensures
            final(grants).wf(),
            final(grants).registered_at == old(grants).registered_at,
            ({
                let granting = old(grants).registered_at != 0;
                let b = old(grants).book();
                let b1 = pool::revoke_when(b, granting, registered@[0], self.good).1;
                final(grants).book() == pool::revoke_when(
                    b1,
                    granting,
                    registered@[1],
                    self.not_mine,
                ).1
            }),
    {
        let _ = grants.revoke(registered[0], self.good);
        let _ = grants.revoke(registered[1], self.not_mine);
    }
}

/// The tail of the long line lies wholly behind what one transfer carries.
pub proof fn law_tail_is_past_the_transfer(prefix: Seq<u8>, tail: Seq<u8>)
    requires
        prefix.len() < CDEV_MAX_IO - 1,
        tail.len() == 8,
    ensures
        rule(prefix, tail).take(CDEV_MAX_IO as int).last() == 10,
        rule(prefix, tail).skip(CDEV_MAX_IO as int) == tail,
{
    assert(rule(prefix, tail).skip(CDEV_MAX_IO as int) =~= tail);
}

/// The pattern starts at 11 and goes up by 37 from byte to byte, around 256, so that no
/// two bytes of the buffer are alike.
pub proof fn law_pattern_tells_bytes_apart(i: int, j: int)
    requires
        0 <= i < 64,
        0 <= j < 64,
    ensures
        pattern_byte(0) == 11,
        pattern_byte(i + 1) == (pattern_byte(i) + 37) % 256,
        pattern_byte(i) == pattern_byte(j) ==> i == j,
{
    let a = i * 37 + 11;
    let b = j * 37 + 11;
    lemma_goes_up(a);
    if pattern_byte(i) == pattern_byte(j) {
        lemma_apart(i, j, a / 256, b / 256, a % 256);
    }
}

proof fn lemma_goes_up(a: int)
    ensures
        (a + 37) % 256 == (a % 256 + 37) % 256,
{
}

proof fn lemma_apart(i: int, j: int, q: int, r: int, x: int)
    requires
        i * 37 + 11 == 256 * q + x,
        j * 37 + 11 == 256 * r + x,
        0 <= i < 64,
        0 <= j < 64,
    ensures
        i == j,
{
    let m = 173 * (q - r) - 25 * (i - j);
    assert(37 * (i - j) == 256 * (q - r));
    assert(i - j == 256 * m);
}

/// The line longer than one transfer, byte by byte: it starts with the prefix, goes on in
/// dashes, and is one line as far as a transfer carries it.
pub proof fn law_rule_is_one_line(prefix: Seq<u8>, tail: Seq<u8>, i: int)
    requires
        prefix.len() < 255,
        0 <= i < 264,
    ensures
        rule(prefix, tail).len() == 256 + 8,
        rule(prefix, tail).take(prefix.len() as int) == prefix,
        prefix.len() <= i < 255 ==> rule(prefix, tail)[i] == 0x2d,
        rule(prefix, tail)[255] == 0x0a,
{
    assert(rule(prefix, tail).take(prefix.len() as int) =~= prefix);
}

/// A peer the directory knows is where the directory says; one it does not know is where
/// it was at boot. The line names the peer and the endpoint in use.
pub proof fn law_directory_goes_before_boot(
    label: Seq<char>,
    ep: Endpoint,
    rc: i32,
    boot: Endpoint,
)
    ensures
        peer_at(label, Ok(ep), boot).0 == ep,
        peer_at(label, Ok(ep), boot).1 == label + (" ok ep="@ + text::decimal(ep as int)),
        peer_at(label, Err(rc), boot).0 == boot,
        peer_at(label, Err(rc), boot).1 == label + (" FAIL rc="@ + (text::decimal(rc as int) + (
        " fallback="@ + text::decimal(boot as int)))),
{
    assert(peer_at(label, Ok(ep), boot).1 =~= label + (" ok ep="@ + text::decimal(ep as int)));
    assert(peer_at(label, Err(rc), boot).1 =~= label + (" FAIL rc="@ + (text::decimal(rc as int) + (
    " fallback="@ + text::decimal(boot as int)))));
}

/// The line on the mount tells its three numbers, or why there is none.
pub proof fn law_mount_line_tells_the_numbers(m: Mount, rc: i32)
    ensures
        mount_text(Ok(m)) == "fs.mount ok root="@ + (text::decimal(m.root as int) + (" bs="@ + (
        text::decimal(m.block_size as int) + (" blocks="@ + text::decimal(m.blocks as int))))),
        mount_text(Err(rc)) == "fs.mount FAIL rc="@ + text::decimal(rc as int),
{
    assert(mount_text(Ok(m)) =~= "fs.mount ok root="@ + (text::decimal(m.root as int) + (" bs="@ + (
    text::decimal(m.block_size as int) + (" blocks="@ + text::decimal(m.blocks as int))))));
}

/// What the exercise tells the process manager is what the process manager takes up: the
/// two grants, all 64 bytes, and where they lie.
pub proof fn law_exercise_is_taken_up(gid: i32, rw_gid: i32, addr: u64, vfs: Endpoint)
    requires
        vfs == com::boot_spec(VFS_PROC_NR as int),
    ensures
        granttest::taken_up(vfs, exercise_payload(gid, rw_gid, addr)) == Some(
            (granttest::GrantTest { granter: vfs, gid, rw_gid, raw_addr: addr, len: 64 }),
        ),
{
    let p0 = payload::zero_payload();
    let p1 = payload::with_i32(p0, 0, gid);
    let p2 = payload::with_i32(p1, 4, 64);
    let p3 = payload::with_i32(p2, 8, rw_gid);
    payload::law_i32_round_trip(p0, 0, gid);
    payload::law_i32_round_trip(p1, 4, 64);
    payload::law_i32_round_trip(p2, 8, rw_gid);
    payload::law_u64_round_trip(p3, 16, addr);
    payload::law_writes_do_not_disturb(p1, 4, 64, 0, 0);
    payload::law_writes_do_not_disturb(p2, 8, rw_gid, 0, 0);
    payload::law_writes_do_not_disturb(p2, 8, rw_gid, 0, 4);
    payload::law_writes_do_not_disturb(p3, 16, 0, addr, 0);
    payload::law_writes_do_not_disturb(p3, 16, 0, addr, 4);
    payload::law_writes_do_not_disturb(p3, 16, 0, addr, 8);
}

/// Both grants of the exercise are the process manager's, over the same 64 bytes; only
/// the second claims that they can be written.
pub proof fn law_exercise_grants_the_buffer(b: Book, addr: u64)
    requires
        b.entries.len() <= GRANT_MAX_IDX + 1,
        b.next_seq <= GRANT_MAX_SEQ,
        exercise_grants(b, seq![Ok(()), Ok(())], addr).0 is Ok,
        exercise_grants(b, seq![Ok(()), Ok(())], addr).1 is Ok,
    ensures
        ({
            let (r1, r2, later) = exercise_grants(b, seq![Ok(()), Ok(())], addr);
            let i = (r1->Ok_0 as int) % 0x10_0000;
            let j = (r2->Ok_0 as int) % 0x10_0000;
            let pm = com::boot_spec(PM_PROC_NR as int);
            &&& later.entries[j].who_to == pm
            &&& later.entries[j].addr == addr && later.entries[j].len == 64
            &&& later.entries[j].flags == CPF_DIRECT | (CPF_READ | CPF_WRITE) | 0x100 | 0x1000
            &&& i != j ==> later.entries[i].who_to == pm
            &&& i != j ==> later.entries[i].addr == addr && later.entries[i].len == 64
            &&& i != j ==> later.entries[i].flags == CPF_DIRECT | CPF_READ | 0x100 | 0x1000
        }),
{
    let pm = com::boot_spec(PM_PROC_NR as int) as i32;
    let registered = seq![Ok::<(), i32>(()), Ok(())];
    assert(registered[0] == Ok::<(), i32>(()));
    assert(registered[1] == Ok::<(), i32>(()));
    let b1 = pool::issue(b, CPF_DIRECT | CPF_READ, pm, NONE, addr, 64).1;
    pool::law_grant_holds_what_was_asked(b, CPF_DIRECT | CPF_READ, pm, NONE, addr, 64);
    pool::law_grant_holds_what_was_asked(
        b1,
        CPF_DIRECT | (CPF_READ | CPF_WRITE),
        pm,
        NONE,
        addr,
        64,
    );
}

/// The driver exercise: the short line, then the long one, then the refused writes. A
/// line's grant is taken back before the exercise goes on; without a grant it stops and
/// says so.
pub proof fn law_lines_come_in_order(p: Part, gid: i32, e: i32)
    ensures
        tabled(Driver::Grant(p), Ok(gid)) == (Driver::Send(p, gid), None::<Seq<char>>),
        tabled(Driver::Grant(p), Err(e)).0 == Driver::Stop,
        tabled(Driver::Grant(p), Err(e)).1 is Some,
        tabled(Driver::Revoke(Part::Banner, gid), Ok(gid)).0 == Driver::Grant(Part::Rule),
        tabled(Driver::Revoke(Part::Rule, gid), Ok(gid)).0 == Driver::Denials,
{
}

/// A write is told to have gone well exactly when the short line went out whole, or when
/// the long one was cut to the 256 bytes one transfer carries.
pub proof fn law_counts_are_told_apart(rc: i32)
    ensures
        written(Part::Banner, rc) == "cdev.write ok match=1"@ <==> rc == 35,
        written(Part::Rule, rc) == "cdev.short ok n="@ + text::decimal(rc as int) <==> rc == 256,
        rc != 35 ==> written(Part::Banner, rc) == "cdev.write FAIL rc="@ + text::decimal(rc as int),
        rc != 256 ==> written(Part::Rule, rc) == "cdev.short FAIL rc="@ + text::decimal(rc as int),
{
    reveal_strlit("cdev.write ok match=1");
    reveal_strlit("cdev.write FAIL rc=");
    reveal_strlit("cdev.short ok n=");
    reveal_strlit("cdev.short FAIL rc=");
    let d = text::decimal(rc as int);
    assert(("cdev.write FAIL rc="@ + d)[11] == 'F');
    assert("cdev.write ok match=1"@[11] == 'o');
    assert(("cdev.short FAIL rc="@ + d)[11] == 'F');
    assert(("cdev.short ok n="@ + d)[11] == 'o');
}

} // verus!
