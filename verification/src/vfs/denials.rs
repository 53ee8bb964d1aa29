//! The filesystem requests that must be refused, one after the other: most of
//! them the server itself would never let a client send.
use vstd::prelude::*;
use vstd::string::*;
use crate::abi::callnr::{
    FS_LOOKUP, FS_READ, FS_READSUPER, FS_RQ_BASE, FS_SUPER_MINOR_OFF, NR_FS_MSGS,
};
use crate::abi::com;
use crate::abi::com::{boot_endpoint, PM_PROC_NR};
use crate::abi::endpoint::{Endpoint, NONE};
use crate::abi::errno::{
    EINVAL, EISDIR, ENAMETOOLONG, ENOENT, ENOSYS, ENOTDIR, ENXIO, EPERM, OK,
};
use crate::abi::grant::{CPF_DIRECT, CPF_READ, CPF_WRITE};
use crate::abi::message::Message;
use crate::abi::rootfs::ROOTFS_MOTD_PATH;
use crate::rt::grant as pool;
use crate::rt::grant::{Book, GrantPool};
use crate::rt::kcall;
use crate::rt::kcall::call_result;
use crate::rt::payload;
use crate::rt::probe;
use crate::rt::probe::Tally;
use crate::vfs::fs;
use crate::vfs::laws;
use crate::vfs::fs::{fs_lookup, fs_lookup_raw, fs_read, fs_readsuper, Mount};

verus! {

/// The battery's name in its lines.
pub const BATTERY: &'static str = "fs.deny";

/// Requests the battery makes.
pub const FS_DENIAL_PROBES: usize = 10;

/// Bytes of the buffer the read requests name.
pub const PROBE_LEN: usize = 32;

/// The device that does not exist.
pub const BAD_MINOR: i32 = 7;

/// The request one past the last.
pub const UNKNOWN_REQUEST: i32 = FS_RQ_BASE + NR_FS_MSGS as i32;

/// How far the battery has come.
#[derive(Copy, Clone, Debug, PartialEq, Eq, Structural)]
pub enum Stage {
    /// A path with no such file.
    NoSuch,
    /// A file where a directory is needed.
    NotDir,
    /// A path that is not absolute.
    Relative,
    /// A path with no terminator.
    TooLong,
    /// The lookup the rest is aimed at.
    Motd,
    /// The grants the reads need.
    Grants,
    /// A read of an inode that does not exist.
    BadIno,
    /// A read of a directory.
    ReadDir,
    /// A read through a grant that names somebody else.
    NotMine,
    /// A read into a grant that can only be read.
    ReadOnly,
    /// A device that does not exist.
    BadMinor,
    /// A request that does not exist.
    Unknown,
    /// The last line, and the grants go back.
    Done,
    /// What the rest needs could not be had: nothing more is asked.
    Stopped,
}

/// The battery: what it knows of the filesystem, and how it fares.
#[derive(Copy, Clone, Debug, PartialEq, Eq, Structural)]
pub struct FsDenials {
    pub stage: Stage,
    pub tally: Tally,
    /// The root directory's inode, as the mount reported it.
    pub root: i32,
    /// The inode of a real file.
    pub motd: i32,
    /// A grant in order.
    pub good: i32,
    /// A grant that names somebody else.
    pub not_mine: i32,
    /// A grant that can only be read.
    pub read_only: i32,
}

/// The name and the expected result of a stage that makes a request to refuse.
pub open spec fn probe_of(s: Stage) -> Option<(Seq<char>, i32)> {
    match s {
        Stage::NoSuch => Some(("no-such"@, ENOENT)),
        Stage::NotDir => Some(("not-dir"@, ENOTDIR)),
        Stage::Relative => Some(("relative"@, EINVAL)),
        Stage::TooLong => Some(("too-long"@, ENAMETOOLONG)),
        Stage::BadIno => Some(("bad-ino"@, EINVAL)),
        Stage::ReadDir => Some(("read-dir"@, EISDIR)),
        Stage::NotMine => Some(("not-mine"@, EPERM)),
        Stage::ReadOnly => Some(("read-only"@, EPERM)),
        Stage::BadMinor => Some(("bad-minor"@, ENXIO)),
        Stage::Unknown => Some(("unknown"@, ENOSYS)),
        _ => None,
    }
}

/// The stage after `s`.
pub open spec fn next_stage(s: Stage) -> Stage {
    match s {
        Stage::NoSuch => Stage::NotDir,
        Stage::NotDir => Stage::Relative,
        Stage::Relative => Stage::TooLong,
        Stage::TooLong => Stage::Motd,
        Stage::Motd => Stage::Grants,
        Stage::Grants => Stage::BadIno,
        Stage::BadIno => Stage::ReadDir,
        Stage::ReadDir => Stage::NotMine,
        Stage::NotMine => Stage::ReadOnly,
        Stage::ReadOnly => Stage::BadMinor,
        Stage::BadMinor => Stage::Unknown,
        Stage::Unknown => Stage::Done,
        Stage::Done => Stage::Done,
        Stage::Stopped => Stage::Stopped,
    }
}

/// How many of the requests to refuse come before a stage.
pub open spec fn probes_before(s: Stage) -> int {
    match s {
        Stage::NoSuch => 0,
        Stage::NotDir => 1,
        Stage::Relative => 2,
        Stage::TooLong => 3,
        Stage::Motd | Stage::Grants | Stage::BadIno | Stage::Stopped => 4,
        Stage::ReadDir => 5,
        Stage::NotMine => 6,
        Stage::ReadOnly => 7,
        Stage::BadMinor => 8,
        Stage::Unknown => 9,
        Stage::Done => 10,
    }
}

/// The path a lookup stage asks for.
pub open spec fn path_of(s: Stage) -> Seq<char> {
    match s {
        Stage::NoSuch => "/no-such-file"@,
        Stage::NotDir => "/etc/motd/x"@,
        Stage::Relative => "etc/motd"@,
        _ => ROOTFS_MOTD_PATH@,
    }
}

/// What a stage's request came to. A lookup that succeeds counts as `OK`, and so
/// does an exchange that failed where only the answer is of interest.
pub open spec fn outcome(s: Stage, trap_rc: i32, m_type: i32, p: Seq<u8>) -> i32 {
    match s {
        Stage::NoSuch | Stage::NotDir | Stage::Relative => match fs::found(trap_rc, m_type, p) {
            Ok(_) => OK,
            Err(e) => e,
        },
        Stage::BadMinor => match fs::mounted(trap_rc, m_type, p) {
            Ok(_) => OK,
            Err(e) => e,
        },
        Stage::Unknown => if trap_rc == OK {
            m_type
        } else {
            OK
        },
        _ => kcall::result_of(trap_rc, m_type),
    }
}

impl FsDenials {
    /// No more can have been refused than has been asked.
    pub open spec fn wf(self) -> bool {
        self.tally.denied <= probes_before(self.stage)
    }

    /// Take up the battery. Without a mount every lookup would fail for that
    /// reason, so the line says that instead.
    pub fn new(mount: Option<Mount>) -> (r: Result<FsDenials, &'static str>)
        ensures
            match r {
                Ok(b) => {
                    &&& mount is Some
                    &&& b.wf()
                    &&& b.stage == Stage::NoSuch
                    &&& b.tally.denied == 0
                    &&& b.root == mount->0.root
                },
                Err(line) => mount is None && line@ == "fs.deny FAIL setup mount"@,
            },
    {
        match mount {
            Some(m) => Ok(
                FsDenials {
                    stage: Stage::NoSuch,
                    tally: Tally::new(),
                    root: m.root,
                    motd: 0,
                    good: 0,
                    not_mine: 0,
                    read_only: 0,
                },
            ),
            None => Err("fs.deny FAIL setup mount"),
        }
    }

    /// The request of the stage the battery is in, as it goes on the wire.
    pub open spec fn asks(self, m: Message) -> bool {
        match self.stage {
            Stage::NoSuch | Stage::NotDir | Stage::Relative | Stage::Motd => m.carries(
                FS_LOOKUP,
                fs::lookup_payload(vstd::utf8::encode_utf8(path_of(self.stage))),
            ),
            Stage::TooLong => m.carries(
                FS_LOOKUP,
                fs::lookup_payload(Seq::new(64, |i: int| 97u8)),
            ),
            Stage::BadIno => m.carries(FS_READ, fs::read_payload(0, self.good, 32, 0)),
            Stage::ReadDir => m.carries(FS_READ, fs::read_payload(self.root, self.good, 32, 0)),
            Stage::NotMine => m.carries(
                FS_READ,
                fs::read_payload(self.motd, self.not_mine, 32, 0),
            ),
            Stage::ReadOnly => m.carries(
                FS_READ,
                fs::read_payload(self.motd, self.read_only, 32, 0),
            ),
            Stage::BadMinor => m.carries(
                FS_READSUPER,
                payload::with_i32(payload::zero_payload(), FS_SUPER_MINOR_OFF as int, BAD_MINOR),
            ),
            Stage::Unknown => m.carries(UNKNOWN_REQUEST, payload::zero_payload()),
            Stage::Grants | Stage::Done | Stage::Stopped => false,
        }
    }

    /// The request to make now, and whom it goes to: the filesystem `mfs`.
    pub fn call(&self, mfs: Endpoint) -> (c: Option<(Endpoint, Message)>)
        ensures
            match c {
                Some((to, m)) => to == mfs && self.asks(m),
                None => self.stage is Grants || self.stage is Done || self.stage is Stopped,
            },
    {
        match self.request() {
            Some(m) => Some((mfs, m)),
            None => None,
        }
    }

    fn request(&self) -> (m: Option<Message>)
        ensures
            match m {
                Some(m) => self.asks(m),
                None => self.stage is Grants || self.stage is Done || self.stage is Stopped,
            },
    {
        match self.stage {
            Stage::NoSuch => self.lookup("/no-such-file"),
            Stage::NotDir => self.lookup("/etc/motd/x"),
            Stage::Relative => self.lookup("etc/motd"),
            Stage::Motd => self.lookup(ROOTFS_MOTD_PATH),
            Stage::TooLong => {
                let field = [97u8;64];
                assert(field@ =~= Seq::new(64, |i: int| 97u8));
                Some(fs_lookup_raw(&field))
            },
            Stage::BadIno => Some(fs_read(0, self.good, PROBE_LEN as i32, 0)),
            Stage::ReadDir => Some(fs_read(self.root, self.good, PROBE_LEN as i32, 0)),
            Stage::NotMine => Some(fs_read(self.motd, self.not_mine, PROBE_LEN as i32, 0)),
            Stage::ReadOnly => Some(fs_read(self.motd, self.read_only, PROBE_LEN as i32, 0)),
            Stage::BadMinor => Some(fs_readsuper(BAD_MINOR)),
            Stage::Unknown => Some(Message::request(UNKNOWN_REQUEST)),
            Stage::Grants | Stage::Done | Stage::Stopped => None,
        }
    }

    fn lookup(&self, path: &str) -> (m: Option<Message>)
        requires
            path@ == "/no-such-file"@ || path@ == "/etc/motd/x"@ || path@ == "etc/motd"@ || path@
                == ROOTFS_MOTD_PATH@,
        ensures
            m is Some,
            m->0.carries(FS_LOOKUP, fs::lookup_payload(path.spec_bytes())),
    {
        proof {
            reveal_strlit("/no-such-file");
            reveal_strlit("/etc/motd/x");
            reveal_strlit("etc/motd");
            reveal_strlit("/etc/motd");
            assert(vstd::utf8::is_ascii_chars(path@));
            is_ascii_spec_bytes(path);
        }
        match fs_lookup(path.as_bytes()) {
            Ok(m) => Some(m),
            Err(_) => None,
        }
    }

    /// Take the answer to the request: the line to print, if any. The battery stops
    /// when the lookup of the real file fails.
    pub fn step(&mut self, trap_rc: i32, reply: &Message) -> (line: Option<String>)
        requires
            old(self).wf(),
            !(old(self).stage is Grants),
            !(old(self).stage is Done),
            !(old(self).stage is Stopped),
        ensures
            final(self).wf(),
            final(self).root == old(self).root,
            final(self).good == old(self).good,
            final(self).not_mine == old(self).not_mine,
            final(self).read_only == old(self).read_only,
            ({
                let s = old(self).stage;
                let rc = outcome(s, trap_rc, reply.m_type, reply.payload@);
                match probe_of(s) {
                    Some((name, want)) => {
                        &&& final(self).stage == next_stage(s)
                        &&& final(self).motd == old(self).motd
                        &&& rc == want ==> line is None && final(self).tally.denied == old(
                            self,
                        ).tally.denied + 1
                        &&& rc != want ==> {
                            &&& line is Some
                            &&& final(self).tally == old(self).tally
                            &&& line->0@ == (if s is BadMinor {
                                "fs.deny FAIL bad-minor"@
                            } else {
                                probe::fail_line(BATTERY@, name, rc)
                            })
                        }
                    },
                    None => {
                        &&& final(self).tally == old(self).tally
                        &&& match fs::found(trap_rc, reply.m_type, reply.payload@) {
                            Ok((ino, _)) => {
                                &&& line is None
                                &&& final(self).stage == Stage::Grants
                                &&& final(self).motd == ino as i32
                            },
                            Err(_) => {
                                &&& line is Some
                                &&& line->0@ == "fs.deny FAIL setup lookup"@
                                &&& *final(self) == (FsDenials {
                                    stage: Stage::Stopped,
                                    ..*old(self)
                                })
                            },
                        }
                    },
                }
            }),
    {
        match self.stage {
            Stage::NoSuch => {
                let rc: i32 = lookup_code(trap_rc, reply);
                self.stage = Stage::NotDir;
                self.tally.check(BATTERY, "no-such", rc, ENOENT)
            },
            Stage::NotDir => {
                let rc: i32 = lookup_code(trap_rc, reply);
                self.stage = Stage::Relative;
                self.tally.check(BATTERY, "not-dir", rc, ENOTDIR)
            },
            Stage::Relative => {
                let rc: i32 = lookup_code(trap_rc, reply);
                self.stage = Stage::TooLong;
                self.tally.check(BATTERY, "relative", rc, EINVAL)
            },
            Stage::TooLong => {
                self.stage = Stage::Motd;
                self.tally.check(BATTERY, "too-long", call_result(trap_rc, reply), ENAMETOOLONG)
            },
            Stage::Motd => match fs::lookup_result(trap_rc, reply) {
                Ok((ino, _)) => {
                    self.stage = Stage::Grants;
                    self.motd = ino as i32;
                    None
                },
                Err(_) => {
                    self.stage = Stage::Stopped;
                    Some("fs.deny FAIL setup lookup".to_owned())
                },
            },
            Stage::BadIno => {
                self.stage = Stage::ReadDir;
                self.tally.check(BATTERY, "bad-ino", call_result(trap_rc, reply), EINVAL)
            },
            Stage::ReadDir => {
                self.stage = Stage::NotMine;
                self.tally.check(BATTERY, "read-dir", call_result(trap_rc, reply), EISDIR)
            },
            Stage::NotMine => {
                self.stage = Stage::ReadOnly;
                self.tally.check(BATTERY, "not-mine", call_result(trap_rc, reply), EPERM)
            },
            Stage::ReadOnly => {
                self.stage = Stage::BadMinor;
                self.tally.check(BATTERY, "read-only", call_result(trap_rc, reply), EPERM)
            },
            Stage::BadMinor => {
                let rc: i32 = match fs::readsuper_result(trap_rc, reply) {
                    Ok(_) => OK,
                    Err(e) => e,
                };
                self.stage = Stage::Unknown;
                match self.tally.check(BATTERY, "bad-minor", rc, ENXIO) {
                    Some(_) => Some("fs.deny FAIL bad-minor".to_owned()),
                    None => None,
                }
            },
            Stage::Unknown => {
                let rc: i32 = if trap_rc == OK {
                    reply.m_type
                } else {
                    OK
                };
                self.stage = Stage::Done;
                self.tally.check(BATTERY, "unknown", rc, ENOSYS)
            },
            Stage::Grants | Stage::Done | Stage::Stopped => None,
        }
    }

    /// Issue the three grants the reads need over the buffer at `addr`. When one
    /// cannot be had the line says so and the battery stops. The table is registered
    /// ahead of each grant; `registered` is what came of that.
    pub fn grant(
        &mut self,
        grants: &mut GrantPool<8>,
        registered: [Result<(), i32>; 3],
        mfs: Endpoint,
        addr: u64,
    ) -> (line: Option<&'static str>)
        requires
            old(self).wf(),
            old(self).stage is Grants,
            old(grants).wf(),
        ensures
            final(self).wf(),
            final(grants).wf(),
            final(grants).registered_at == old(grants).registered_at,
            ({
                let (r1, r2, r3, after) = three_grants(
                    old(grants).book(),
                    registered@,
                    mfs,
                    addr,
                );
                &&& final(grants).book() == after
                &&& if r1 is Ok && r2 is Ok && r3 is Ok {
                    &&& line is None
                    &&& *final(self) == (FsDenials {
                        stage: Stage::BadIno,
                        good: r1->Ok_0,
                        not_mine: r2->Ok_0,
                        read_only: r3->Ok_0,
                        ..*old(self)
                    })
                } else {
                    &&& line is Some
                    &&& line->0@ == "fs.deny FAIL setup grant"@
                    &&& *final(self) == (FsDenials { stage: Stage::Stopped, ..*old(self) })
                }
            }),
    {
        let n: u64 = PROBE_LEN as u64;
        let g1 = grants.grant_direct(registered[0], mfs, addr, n, CPF_WRITE);
        let pm: Endpoint = boot_endpoint(PM_PROC_NR);
        let g2 = grants.grant_direct(registered[1], pm, addr, n, CPF_WRITE);
        let g3 = grants.grant_direct(registered[2], mfs, addr, n, CPF_READ);
        match (g1, g2, g3) {
            (Ok(good), Ok(not_mine), Ok(read_only)) => {
                self.stage = Stage::BadIno;
                self.good = good;
                self.not_mine = not_mine;
                self.read_only = read_only;
                None
            },
            _ => {
                self.stage = Stage::Stopped;
                Some("fs.deny FAIL setup grant")
            },
        }
    }

    /// The last line, when every request was refused as it must be; and the grants
    /// are taken back, whatever comes of it. The table is registered ahead of each.
    pub fn finish(
        &self,
        grants: &mut GrantPool<8>,
        registered: [Result<(), i32>; 3],
    ) -> (line: Option<String>)
        requires
            self.stage is Done,
            old(grants).wf(),
        ensures
            final(grants).wf(),
            final(grants).registered_at == old(grants).registered_at,
            self.tally.denied == FS_DENIAL_PROBES ==> line is Some && line->0@ == probe::ok_line(
                BATTERY@,
                10,
            ),
            self.tally.denied != FS_DENIAL_PROBES ==> line is None,
            final(grants).book() == three_revoked(
                old(grants).book(),
                old(grants).registered_at != 0,
                registered@,
                seq![self.good, self.not_mine, self.read_only],
            ),
    {
        let _ = grants.revoke(registered[0], self.good);
        let _ = grants.revoke(registered[1], self.not_mine);
        let _ = grants.revoke(registered[2], self.read_only);
        self.tally.summary(BATTERY, FS_DENIAL_PROBES)
    }
}

/// The three grants, and the book after them.
pub open spec fn three_grants(
    b: Book,
    registered: Seq<Result<(), i32>>,
    mfs: Endpoint,
    addr: u64,
) -> (Result<i32, i32>, Result<i32, i32>, Result<i32, i32>, Book) {
    let n = PROBE_LEN as u64;
    let pm = com::boot_spec(PM_PROC_NR as int) as i32;
    let (r1, b1) = pool::issue_when(b, registered[0], CPF_DIRECT | CPF_WRITE, mfs, NONE, addr, n);
    let (r2, b2) = pool::issue_when(b1, registered[1], CPF_DIRECT | CPF_WRITE, pm, NONE, addr, n);
    let (r3, b3) = pool::issue_when(b2, registered[2], CPF_DIRECT | CPF_READ, mfs, NONE, addr, n);
    (r1, r2, r3, b3)
}

/// The book once the three grants are taken back.
pub open spec fn three_revoked(
    b: Book,
    granting: bool,
    registered: Seq<Result<(), i32>>,
    gids: Seq<i32>,
) -> Book {
    let b1 = pool::revoke_when(b, granting, registered[0], gids[0]).1;
    let b2 = pool::revoke_when(b1, granting, registered[1], gids[1]).1;
    pool::revoke_when(b2, granting, registered[2], gids[2]).1
}

fn lookup_code(trap_rc: i32, reply: &Message) -> (rc: i32)
    ensures
        rc == (match fs::found(trap_rc, reply.m_type, reply.payload@) {
            Ok(_) => OK,
            Err(e) => e,
        }),
{
    match fs::lookup_result(trap_rc, reply) {
        Ok(_) => OK,
        Err(e) => e,
    }
}

/// The battery goes through its requests in order and ends: every stage but the two
/// last leads to a later one, and by `Done` exactly the ten requests have been made.
pub proof fn law_battery_runs_through(s: Stage)
    ensures
        !(s is Done) && !(s is Stopped) ==> stages_left(next_stage(s)) == stages_left(s) - 1,
        probes_before(next_stage(s)) == probes_before(s) + (if probe_of(s) is Some {
            1int
        } else {
            0
        }),
        probes_before(Stage::Done) == FS_DENIAL_PROBES,
{
}

/// Stages still to come.
pub open spec fn stages_left(s: Stage) -> int {
    match s {
        Stage::NoSuch => 12,
        Stage::NotDir => 11,
        Stage::Relative => 10,
        Stage::TooLong => 9,
        Stage::Motd => 8,
        Stage::Grants => 7,
        Stage::BadIno => 6,
        Stage::ReadDir => 5,
        Stage::NotMine => 4,
        Stage::ReadOnly => 3,
        Stage::BadMinor => 2,
        Stage::Unknown => 1,
        Stage::Done | Stage::Stopped => 0,
    }
}

/// What each request to refuse asks for, field by field: each is in order but for the one
/// thing it is refused for.
pub proof fn law_requests_break_one_rule(b: FsDenials, m: Message)
    requires
        b.asks(m),
    ensures
        b.stage is BadIno ==> m.m_type == FS_READ && payload::i32_field(m.payload@, 0) == 0
            && payload::i32_field(m.payload@, 4) == b.good,
        b.stage is ReadDir ==> m.m_type == FS_READ && payload::i32_field(m.payload@, 0) == b.root
            && payload::i32_field(m.payload@, 4) == b.good,
        b.stage is NotMine ==> m.m_type == FS_READ && payload::i32_field(m.payload@, 0) == b.motd
            && payload::i32_field(m.payload@, 4) == b.not_mine,
        b.stage is ReadOnly ==> m.m_type == FS_READ && payload::i32_field(m.payload@, 0) == b.motd
            && payload::i32_field(m.payload@, 4) == b.read_only,
        b.stage is BadIno || b.stage is ReadDir || b.stage is NotMine || b.stage is ReadOnly
            ==> payload::i32_field(m.payload@, 8) == 32 && payload::u64_field(m.payload@, 16) == 0,
        b.stage is TooLong ==> m.m_type == FS_LOOKUP && forall|i: int|
            24 <= i < 88 ==> #[trigger] m.payload@[i] != 0,
        b.stage is BadMinor ==> m.m_type == FS_READSUPER && payload::i32_field(
            m.payload@,
            FS_SUPER_MINOR_OFF as int,
        ) == 7,
        b.stage is Unknown ==> m.m_type == FS_RQ_BASE + NR_FS_MSGS,
{
    laws::law_read_request_reads_back(0, b.good, 32, 0);
    laws::law_read_request_reads_back(b.root, b.good, 32, 0);
    laws::law_read_request_reads_back(b.motd, b.not_mine, 32, 0);
    laws::law_read_request_reads_back(b.motd, b.read_only, 32, 0);
    payload::law_i32_round_trip(payload::zero_payload(), FS_SUPER_MINOR_OFF as int, BAD_MINOR);
    if b.stage is TooLong {
        let field = Seq::new(64, |i: int| 97u8);
        payload::law_bytes_are_placed_whole(payload::zero_payload(), 24, field);
        let p = fs::lookup_payload(field);
        assert forall|i: int| 24 <= i < 88 implies #[trigger] p[i] != 0 by {
            assert(p.subrange(24, 24int + field.len())[i - 24] == field[i - 24]);
        }
    }
}

/// How each request must be refused.
pub proof fn law_refusals_are_expected()
    ensures
        probe_of(Stage::NoSuch) == Some(("no-such"@, ENOENT)),
        probe_of(Stage::NotDir) == Some(("not-dir"@, ENOTDIR)),
        probe_of(Stage::Relative) == Some(("relative"@, EINVAL)),
        probe_of(Stage::TooLong) == Some(("too-long"@, ENAMETOOLONG)),
        probe_of(Stage::BadIno) == Some(("bad-ino"@, EINVAL)),
        probe_of(Stage::ReadDir) == Some(("read-dir"@, EISDIR)),
        probe_of(Stage::NotMine) == Some(("not-mine"@, EPERM)),
        probe_of(Stage::ReadOnly) == Some(("read-only"@, EPERM)),
        probe_of(Stage::BadMinor) == Some(("bad-minor"@, ENXIO)),
        probe_of(Stage::Unknown) == Some(("unknown"@, ENOSYS)),
{
}

/// A request counts as refused with the code the filesystem answered, and a trap that
/// failed counts with its own, except for the last request, where only an answer does.
/// An answer that grants the request is no refusal.
pub proof fn law_outcome_is_the_answer(s: Stage, trap_rc: i32, m_type: i32, p: Seq<u8>)
    requires
        probe_of(s) is Some,
    ensures
        trap_rc == OK && m_type != OK ==> outcome(s, trap_rc, m_type, p) == m_type,
        trap_rc != OK && !(s is Unknown) ==> outcome(s, trap_rc, m_type, p) == trap_rc,
        trap_rc != OK && s is Unknown ==> outcome(s, trap_rc, m_type, p) == OK,
        trap_rc == OK && m_type == OK && !(s is NoSuch) && !(s is NotDir) && !(s is Relative)
            ==> outcome(s, trap_rc, m_type, p) == OK,
{
    kcall::law_first_failure_is_reported(trap_rc, m_type);
}

} // verus!
