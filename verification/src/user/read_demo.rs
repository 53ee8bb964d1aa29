//! Reading a file, printing it, and opening and closing descriptors: the file must
//! come from the filesystem, and descriptors must be handed out lowest first.
use vstd::prelude::*;
use crate::abi::errno::OK;
use crate::abi::rootfs::ROOTFS_MOTD_PATH;
use crate::user::report;
use crate::user::report::{fd_verdict, read_verdict};
use crate::user::request::{STDERR, STDOUT};
use crate::vfs::fd;
use crate::vfs::fd::{Fd, FdRow};

verus! {

/// Bytes the file is read into.
pub const MOTD_BUF_LEN: usize = 64;

/// Where the exercise stands: the request it waits for.
#[derive(Copy, Clone, Debug, PartialEq, Eq, Structural)]
pub enum Demo {
    /// Open the file.
    Open,
    /// Read it.
    Read { fd: i32 },
    /// Print what was read.
    Print { fd: i32, n: i32 },
    /// Read on: the descriptor must be at the end.
    Again { fd: i32, n: i32 },
    /// Say what the two reads came to.
    Verdict { fd: i32, n: i32, m: i32 },
    /// Close it.
    Close { fd: i32 },
    /// Open it once more.
    First,
    /// And again, beside the first.
    Second { a: i32 },
    /// Close the first.
    CloseFirst { a: i32, b: i32 },
    /// Close the second.
    CloseSecond { a: i32, b: i32, closed_a: i32 },
    /// Open it a last time.
    Third { a: i32, b: i32, closed_a: i32, closed_b: i32 },
    /// Close it.
    CloseThird { a: i32, b: i32, closed_a: i32, closed_b: i32, again: i32 },
    /// Say what the descriptors came to.
    FdVerdict { a: i32, b: i32, closed_a: i32, closed_b: i32, again: i32 },
    /// Say that the file could not be opened.
    Unopened,
    /// Go on to the opens that must be refused.
    Denials,
    /// Nothing more.
    Stop,
}

/// A request of the exercise.
#[derive(Copy, Clone)]
pub enum Act {
    /// Open this file.
    Open(&'static str),
    /// Read this descriptor into the buffer.
    Read(i32),
    /// Print on the descriptor this many bytes of the buffer.
    Echo(i32, i32),
    /// Print on the descriptor this text.
    Say(i32, &'static str),
    /// Report on the descriptor this failure, on a line of its own.
    Report(i32, &'static str),
    /// Close this descriptor.
    Close(i32),
    /// No request.
    Nothing,
}

impl Demo {
    /// The exercise after its request returned `rc`.
    pub open spec fn next(self, rc: i32) -> Demo {
        match self {
            Demo::Open => if rc < 0 {
                Demo::Unopened
            } else {
                Demo::Read { fd: rc }
            },
            Demo::Read { fd } => if rc > 0 {
                Demo::Print { fd, n: rc }
            } else {
                Demo::Again { fd, n: rc }
            },
            Demo::Print { fd, n } => Demo::Again { fd, n },
            Demo::Again { fd, n } => Demo::Verdict { fd, n, m: rc },
            Demo::Verdict { fd, n: _, m: _ } => Demo::Close { fd },
            Demo::Close { fd: _ } => Demo::First,
            Demo::First => Demo::Second { a: rc },
            Demo::Second { a } => Demo::CloseFirst { a, b: rc },
            Demo::CloseFirst { a, b } => Demo::CloseSecond { a, b, closed_a: rc },
            Demo::CloseSecond { a, b, closed_a } => Demo::Third { a, b, closed_a, closed_b: rc },
            Demo::Third { a, b, closed_a, closed_b } => Demo::CloseThird {
                a,
                b,
                closed_a,
                closed_b,
                again: rc,
            },
            Demo::CloseThird { a, b, closed_a, closed_b, again } => Demo::FdVerdict {
                a,
                b,
                closed_a,
                closed_b,
                again,
            },
            Demo::FdVerdict { .. } => Demo::Denials,
            Demo::Unopened => Demo::Stop,
            Demo::Denials => Demo::Denials,
            Demo::Stop => Demo::Stop,
        }
    }

    /// This is the request the exercise waits for.
    pub open spec fn waits_for(self, act: Act) -> bool {
        match self {
            Demo::Open | Demo::First | Demo::Second { .. } | Demo::Third { .. } => act matches
                Act::Open(p) && p@ == ROOTFS_MOTD_PATH@,
            Demo::Read { fd } => act == Act::Read(fd),
            Demo::Print { fd: _, n } => act == Act::Echo(STDOUT, n),
            Demo::Again { fd, n: _ } => act == Act::Read(fd),
            Demo::Verdict { fd: _, n, m } => act matches Act::Say(on, t) && on == STDOUT && t@
                == report::read_text(n, m),
            Demo::Close { fd } => act == Act::Close(fd),
            Demo::CloseFirst { a, b: _ } => act == Act::Close(a),
            Demo::CloseSecond { a: _, b, closed_a: _ } => act == Act::Close(b),
            Demo::CloseThird { again, .. } => act == Act::Close(again),
            Demo::FdVerdict { a, b, closed_a, closed_b, again } => act matches Act::Say(on, t) && on
                == STDOUT && t@ == report::fd_text(a, b, closed_a, closed_b, again),
            Demo::Unopened => act matches Act::Report(on, t) && on == STDERR && t@
                == "minix.rs init: fs.read FAIL open"@,
            Demo::Denials | Demo::Stop => act is Nothing,
        }
    }

    /// The request the exercise waits for.
    pub fn act(self) -> (act: Act)
        ensures
            self.waits_for(act),
    {
        match self {
            Demo::Open | Demo::First | Demo::Second { .. } | Demo::Third { .. } => Act::Open(
                ROOTFS_MOTD_PATH,
            ),
            Demo::Read { fd } => Act::Read(fd),
            Demo::Print { fd: _, n } => Act::Echo(STDOUT, n),
            Demo::Again { fd, n: _ } => Act::Read(fd),
            Demo::Verdict { fd: _, n, m } => Act::Say(STDOUT, read_verdict(n, m)),
            Demo::Close { fd } => Act::Close(fd),
            Demo::CloseFirst { a, b: _ } => Act::Close(a),
            Demo::CloseSecond { a: _, b, closed_a: _ } => Act::Close(b),
            Demo::CloseThird { again, .. } => Act::Close(again),
            Demo::FdVerdict { a, b, closed_a, closed_b, again } => Act::Say(
                STDOUT,
                fd_verdict(a, b, closed_a, closed_b, again),
            ),
            Demo::Unopened => Act::Report(STDERR, "minix.rs init: fs.read FAIL open"),
            Demo::Denials | Demo::Stop => Act::Nothing,
        }
    }

    /// Take the result of the request the exercise waits for.
    pub fn step(self, rc: i32) -> (next: Demo)
        ensures
            next == self.next(rc),
    {
        match self {
            Demo::Open => if rc < 0 {
                Demo::Unopened
            } else {
                Demo::Read { fd: rc }
            },
            Demo::Read { fd } => if rc > 0 {
                Demo::Print { fd, n: rc }
            } else {
                Demo::Again { fd, n: rc }
            },
            Demo::Print { fd, n } => Demo::Again { fd, n },
            Demo::Again { fd, n } => Demo::Verdict { fd, n, m: rc },
            Demo::Verdict { fd, n: _, m: _ } => Demo::Close { fd },
            Demo::Close { fd: _ } => Demo::First,
            Demo::First => Demo::Second { a: rc },
            Demo::Second { a } => Demo::CloseFirst { a, b: rc },
            Demo::CloseFirst { a, b } => Demo::CloseSecond { a, b, closed_a: rc },
            Demo::CloseSecond { a, b, closed_a } => Demo::Third { a, b, closed_a, closed_b: rc },
            Demo::Third { a, b, closed_a, closed_b } => Demo::CloseThird {
                a,
                b,
                closed_a,
                closed_b,
                again: rc,
            },
            Demo::CloseThird { a, b, closed_a, closed_b, again } => Demo::FdVerdict {
                a,
                b,
                closed_a,
                closed_b,
                again,
            },
            Demo::FdVerdict { .. } => Demo::Denials,
            Demo::Unopened => Demo::Stop,
            Demo::Denials => Demo::Denials,
            Demo::Stop => Demo::Stop,
        }
    }
}

/// The exercise after these results.
pub open spec fn after(d: Demo, results: Seq<i32>) -> Demo
    decreases results.len(),
{
    if results.len() == 0 {
        d
    } else {
        after(d.next(results[0]), results.skip(1))
    }
}

/// A file that was opened is closed, whatever its reads and the printing came to.
pub proof fn law_what_was_read_is_closed(fd: i32, results: Seq<i32>)
    requires
        results.len() == if results.len() > 0 && results[0] > 0 {
            4int
        } else {
            3
        },
    ensures
        after(Demo::Read { fd }, results) == (Demo::Close { fd }),
{
    reveal_with_fuel(after, 5);
}

/// Where descriptors are handed out lowest first and closing frees them, the
/// exercise says so: `t0` to `t4` are the table before the two opens, after each,
/// and after each close.
pub proof fn law_lowest_first_passes(
    t0: Seq<FdRow>,
    t1: Seq<FdRow>,
    t2: Seq<FdRow>,
    t3: Seq<FdRow>,
    t4: Seq<FdRow>,
    nr: i32,
    a: Fd,
    b: Fd,
)
    requires
        0 <= nr < t0.len(),
        t0[nr as int]@ == fd::default_fds(),
        a != Fd::Unused,
        b != Fd::Unused,
        fd::changed(t0, t1, nr, 3, a),
        fd::changed(t1, t2, nr, 4, b),
        fd::changed(t2, t3, nr, 3, Fd::Unused),
        fd::changed(t3, t4, nr, 4, Fd::Unused),
    ensures
        fd::alloc_result(t0, nr) == Ok::<i32, i32>(3),
        fd::alloc_result(t1, nr) == Ok::<i32, i32>(4),
        fd::resolved(t2, nr, 3) is Ok,
        fd::resolved(t3, nr, 4) is Ok,
        fd::alloc_result(t4, nr) == Ok::<i32, i32>(3),
        report::fd_text(3, 4, OK, OK, 3) == "minix.rs init: fs.fd ok match=1\n"@,
{
    fd::lemma_lowest_is(t0[nr as int]@, 3, 3);
    fd::lemma_lowest_is(t1[nr as int]@, 3, 4);
    fd::lemma_lowest_is(t4[nr as int]@, 3, 3);
}

} // verus!
