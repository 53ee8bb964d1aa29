//! Writing a file in pieces and reading parts of it back: the file must hold what
//! was written, on both sides of the point where it outgrows its direct blocks.
use vstd::prelude::*;
use vstd::slice::{slice_subrange, slice_to_vec};
use vstd::string::*;
use crate::abi::callnr::BDEV_BLOCK_SIZE;
use crate::abi::errno::OK;
use crate::abi::rootfs;
use crate::abi::rootfs::{rootfs_scratch_byte, ROOTFS_SCRATCH_LEN, ROOTFS_SCRATCH_PATH};
use crate::bytes;
use crate::bytes::put_bytes;
use crate::user::line;
use crate::user::report;
use crate::user::report::{report_line, scratch_chunk, SCRATCH_CHUNK};
use crate::user::request::{STDERR, STDOUT};

verus! {

/// Bytes read back at a time.
pub const SCRATCH_WINDOW: usize = 512;

/// First byte past the direct blocks.
pub const SEAM: usize = 7 * BDEV_BLOCK_SIZE;

/// Where the parts read back start: the beginning, the seam, and the end.
pub const SCRATCH_WINDOWS_AT: [usize; 3] = [0, SEAM, ROOTFS_SCRATCH_LEN - SCRATCH_WINDOW];

/// The parts lie in order, apart, and each inside one block; the middle one
/// starts at the seam and the last ends with the file.
pub proof fn law_windows_ascend()
    ensures
        SEAM == 7 * BDEV_BLOCK_SIZE,
        SCRATCH_WINDOWS_AT@[0] + SCRATCH_WINDOW <= SCRATCH_WINDOWS_AT@[1],
        SCRATCH_WINDOWS_AT@[1] + SCRATCH_WINDOW <= SCRATCH_WINDOWS_AT@[2],
        SCRATCH_WINDOWS_AT@[1] == SEAM,
        SCRATCH_WINDOWS_AT@[2] + SCRATCH_WINDOW == ROOTFS_SCRATCH_LEN,
        SCRATCH_CHUNK as int % BDEV_BLOCK_SIZE as int != 0,
{
}

/// One part being read back. There is no seeking: the descriptor, at `pos`, is
/// wound forward to `start` by reading.
#[derive(Copy, Clone)]
pub struct Window {
    pub start: usize,
    pub pos: usize,
    pub got: usize,
    pub buf: [u8; 512],
}

/// What a read came to.
#[derive(Copy, Clone, Debug, PartialEq, Eq, Structural)]
pub enum Progress {
    More,
    Failed,
    Verified,
}

/// These bytes are the pattern from `start` on.
pub open spec fn matches_pattern(b: Seq<u8>, start: int) -> bool {
    forall|i: int| 0 <= i < b.len() ==> #[trigger] b[i] == rootfs::scratch_byte(start + i)
}

impl Window {
    /// The part lies inside the file, and no more has been read than fits.
    pub open spec fn wf(self) -> bool {
        &&& self.start + SCRATCH_WINDOW <= ROOTFS_SCRATCH_LEN
        &&& self.pos <= self.start
        &&& self.got < SCRATCH_WINDOW
        &&& self.pos < self.start ==> self.got == 0
    }

    /// Begin to read the part at `start` with the descriptor at `pos`.
    pub fn new(start: usize, pos: usize) -> (w: Window)
        requires
            start + 512 <= ROOTFS_SCRATCH_LEN,
            pos <= start,
        ensures
            w.wf(),
            w.start == start,
            w.pos == pos,
            w.got == 0,
    {
        Window { start, pos, got: 0, buf: [0u8;512] }
    }

    /// How many bytes to ask for: what is left to the start, or of the part.
    pub open spec fn want_spec(self) -> int {
        if self.pos < self.start {
            if self.start - self.pos < SCRATCH_WINDOW {
                self.start - self.pos
            } else {
                SCRATCH_WINDOW as int
            }
        } else {
            SCRATCH_WINDOW - self.got
        }
    }

    /// How many bytes to ask for.
    pub fn want(&self) -> (n: usize)
        requires
            self.wf(),
        ensures
            n == self.want_spec(),
            0 < n <= 512,
    {
        if self.pos < self.start {
            let left: usize = self.start - self.pos;
            if left < SCRATCH_WINDOW {
                left
            } else {
                SCRATCH_WINDOW
            }
        } else {
            SCRATCH_WINDOW - self.got
        }
    }

    /// Take a read that returned `n`, with the buffer it was to fill. The end of
    /// the file, an error, and more bytes than were asked for all fail.
    pub fn take(&mut self, n: i32, data: &[u8]) -> (p: Progress)
        requires
            old(self).wf(),
            old(self).want_spec() <= data@.len(),
        ensures
            final(self).start == old(self).start,
            n <= 0 || n > old(self).want_spec() ==> p is Failed && *final(self) == *old(self),
            0 < n <= old(self).want_spec() ==> if old(self).pos < old(self).start {
                &&& p is More
                &&& final(self).wf()
                &&& final(self).pos == old(self).pos + n
                &&& final(self).got == 0
            } else {
                let read = bytes::splice(
                    old(self).buf@,
                    old(self).got as int,
                    data@.take(n as int),
                );
                &&& final(self).buf@ == read
                &&& old(self).got + n < SCRATCH_WINDOW ==> {
                    &&& p is More
                    &&& final(self).wf()
                    &&& final(self).pos == old(self).pos
                    &&& final(self).got == old(self).got + n
                }
                &&& old(self).got + n == SCRATCH_WINDOW ==> {
                    &&& final(self).pos == old(self).pos + SCRATCH_WINDOW
                    &&& p == (if matches_pattern(read, old(self).start as int) {
                        Progress::Verified
                    } else {
                        Progress::Failed
                    })
                }
            },
    {
        let want: usize = self.want();
        if n <= 0 || n as usize > want {
            return Progress::Failed;
        }
        let m: usize = n as usize;
        if self.pos < self.start {
            self.pos = self.pos + m;
            return Progress::More;
        }
        let part = slice_subrange(data, 0, m);
        assert(part@ =~= data@.take(n as int));
        let at: usize = self.got;
        put_bytes(&mut self.buf, at, part);
        self.got = at + m;
        if self.got < SCRATCH_WINDOW {
            return Progress::More;
        }
        self.pos = self.pos + SCRATCH_WINDOW;
        let mut i: usize = 0;
        while i < SCRATCH_WINDOW
            invariant
                i <= 512,
                self.start + 512 <= ROOTFS_SCRATCH_LEN,
                forall|k: int|
                    0 <= k < i ==> #[trigger] self.buf@[k] == rootfs::scratch_byte(self.start + k),
                self.start == old(self).start,
                self.pos == old(self).pos + SCRATCH_WINDOW,
                self.buf@ == bytes::splice(
                    old(self).buf@,
                    old(self).got as int,
                    data@.take(n as int),
                ),
                old(self).got + n == SCRATCH_WINDOW,
                old(self).pos >= old(self).start,
                0 < n <= old(self).want_spec(),
            decreases 512 - i,
        {
            if self.buf[i] != rootfs_scratch_byte(self.start + i) {
                assert(self.buf@[i as int] != rootfs::scratch_byte(self.start + i));
                return Progress::Failed;
            }
            i = i + 1;
        }
        Progress::Verified
    }
}

/// Where the exercise stands: the request it waits for, or its last line.
#[derive(Copy, Clone)]
pub enum Demo {
    /// Open the file.
    Open,
    /// Write the next piece.
    Write { fd: i32, off: usize },
    /// Close it; the close must succeed.
    Close { fd: i32 },
    /// Open it afresh, so that its size must have reached the filesystem.
    Reopen,
    /// Read part `k` back.
    Verify { fd: i32, k: usize, w: Window },
    /// Close it, whatever comes of that, and report.
    Quit { fd: i32, ok: bool, text: &'static str },
    /// Report.
    Report { ok: bool, text: &'static str },
}

/// What the exercise asks of the file server.
pub enum Act {
    /// Open this file.
    Open(&'static str),
    /// Write these bytes to the descriptor.
    Write(i32, Vec<u8>),
    /// Read so many bytes from the descriptor.
    Read(i32, usize),
    /// Close this descriptor.
    Close(i32),
    /// Print this line on the descriptor: the exercise is over.
    Say(i32, Vec<u8>),
}

/// The line that says that all went well.
pub const WRITE_OK: &'static str = "minix.rs init: fs.write ok n=32768 v=3";

/// How many bytes the piece at `off` has.
pub open spec fn piece(off: int) -> int {
    if ROOTFS_SCRATCH_LEN - off < SCRATCH_CHUNK {
        ROOTFS_SCRATCH_LEN - off
    } else {
        SCRATCH_CHUNK as int
    }
}

impl Demo {
    /// The exercise stays inside the file, and reads its parts in order.
    pub open spec fn wf(self) -> bool {
        match self {
            Demo::Write { off, .. } => {
                &&& off < ROOTFS_SCRATCH_LEN
                &&& off as int % SCRATCH_CHUNK as int == 0
            },
            Demo::Verify { k, w, .. } => {
                &&& k < 3
                &&& w.wf()
                &&& w.start == SCRATCH_WINDOWS_AT@[k as int]
            },
            _ => true,
        }
    }

    /// The exercise ends with this line.
    pub open spec fn ends(self, ok: bool, text: Seq<char>) -> bool {
        self matches Demo::Report { ok: o, text: t } && o == ok && t@ == text
    }

    /// The exercise closes the file and ends with this line.
    pub open spec fn quits(self, fd: i32, ok: bool, text: Seq<char>) -> bool {
        self matches Demo::Quit { fd: f, ok: o, text: t } && f == fd && o == ok && t@ == text
    }

    /// With result `rc`, and `data` delivered, the exercise goes on as `next`.
    pub open spec fn steps(self, rc: i32, data: Seq<u8>, next: Demo) -> bool {
        match self {
            Demo::Open => if rc < 0 {
                next.ends(false, "minix.rs init: fs.write FAIL open"@)
            } else {
                next == (Demo::Write { fd: rc, off: 0 })
            },
            Demo::Write { fd, off } => if rc != piece(off as int) {
                next.quits(fd, false, "minix.rs init: fs.write FAIL short"@)
            } else if off + rc < ROOTFS_SCRATCH_LEN {
                next == (Demo::Write { fd, off: (off + rc) as usize })
            } else {
                next == (Demo::Close { fd })
            },
            Demo::Close { fd: _ } => if rc != OK {
                next.ends(false, "minix.rs init: fs.write FAIL close"@)
            } else {
                next is Reopen
            },
            Demo::Reopen => if rc < 0 {
                next.ends(false, "minix.rs init: fs.write FAIL reopen"@)
            } else {
                next matches Demo::Verify { fd, k, w } && fd == rc && k == 0 && w.pos == 0
                    && w.got == 0
            },
            Demo::Verify { fd, k, w } => if rc <= 0 || rc > w.want_spec() {
                next.quits(fd, false, "minix.rs init: fs.write FAIL verify"@)
            } else if w.pos < w.start {
                next matches Demo::Verify { fd: f, k: j, w: v } && f == fd && j == k && v.pos
                    == w.pos + rc && v.got == 0
            } else {
                let read = bytes::splice(w.buf@, w.got as int, data.take(rc as int));
                if w.got + rc < SCRATCH_WINDOW {
                    next matches Demo::Verify { fd: f, k: j, w: v } && f == fd && j == k
                        && v.pos == w.pos && v.got == w.got + rc && v.buf@ == read
                } else if !matches_pattern(read, w.start as int) {
                    next.quits(fd, false, "minix.rs init: fs.write FAIL verify"@)
                } else if k < 2 {
                    next matches Demo::Verify { fd: f, k: j, w: v } && f == fd && j == k + 1
                        && v.pos == w.pos + SCRATCH_WINDOW && v.got == 0
                } else {
                    next.quits(fd, true, WRITE_OK@)
                }
            },
            Demo::Quit { fd: _, ok, text } => next.ends(ok, text@),
            Demo::Report { ok, text } => next.ends(ok, text@),
        }
    }

    /// With these bytes, part `j` is complete and holds the pattern.
    pub open spec fn completes(self, j: int, rc: i32, data: Seq<u8>) -> bool {
        self matches Demo::Verify { fd: _, k, w } && k == j && rc > 0 && w.pos == w.start && w.got
            + rc == SCRATCH_WINDOW && matches_pattern(
            bytes::splice(w.buf@, w.got as int, data.take(rc as int)),
            w.start as int,
        )
    }

    /// How many bytes the write the exercise waits for has.
    pub fn piece_len(off: usize) -> (n: usize)
        requires
            off < ROOTFS_SCRATCH_LEN,
        ensures
            n == piece(off as int),
            0 < n <= SCRATCH_CHUNK,
    {
        let left: usize = ROOTFS_SCRATCH_LEN - off;
        if left < SCRATCH_CHUNK {
            left
        } else {
            SCRATCH_CHUNK
        }
    }

    /// The request the exercise waits for. A piece is the pattern from its offset
    /// on; success is printed on the standard output, a failure as an error.
    pub open spec fn waits_for(self, act: Act) -> bool {
        match self {
            Demo::Open | Demo::Reopen => act matches Act::Open(p) && p@ == ROOTFS_SCRATCH_PATH@,
            Demo::Write { fd, off } => act matches Act::Write(on, b) && on == fd && b@.len()
                == piece(off as int) && matches_pattern(b@, off as int),
            Demo::Close { fd } => act == Act::Close(fd),
            Demo::Verify { fd, k: _, w } => act matches Act::Read(on, n) && on == fd && n
                == w.want_spec(),
            Demo::Quit { fd, .. } => act == Act::Close(fd),
            Demo::Report { ok, text } => act matches Act::Say(on, b) && on == (if ok {
                STDOUT
            } else {
                STDERR
            }) && b@ == line::cut(text.spec_bytes() + seq![10u8]),
        }
    }

    /// Build the request the exercise waits for.
    pub fn act(self) -> (act: Act)
        requires
            self.wf(),
        ensures
            self.waits_for(act),
    {
        match self {
            Demo::Open | Demo::Reopen => Act::Open(ROOTFS_SCRATCH_PATH),
            Demo::Write { fd, off } => {
                let chunk = scratch_chunk();
                let n: usize = Demo::piece_len(off);
                let b = slice_to_vec(slice_subrange(chunk.as_slice(), 0, n));
                proof {
                    let k = off as int / SCRATCH_CHUNK as int;
                    assert(off == k * SCRATCH_CHUNK);
                    assert forall|i: int| 0 <= i < b@.len() implies #[trigger] b@[i]
                        == rootfs::scratch_byte(off + i) by {
                        report::law_every_chunk_is_the_same(k, i);
                    }
                }
                Act::Write(fd, b)
            },
            Demo::Close { fd } => Act::Close(fd),
            Demo::Verify { fd, k: _, w } => Act::Read(fd, w.want()),
            Demo::Quit { fd, .. } => Act::Close(fd),
            Demo::Report { ok, text } => Act::Say(
                if ok {
                    STDOUT
                } else {
                    STDERR
                },
                report_line(text),
            ),
        }
    }

    /// Take the result of the request the exercise waits for; `data` is the buffer
    /// a read was to fill.
    pub fn step(self, rc: i32, data: &[u8]) -> (next: Demo)
        requires
            self.wf(),
            self matches Demo::Verify { w, .. } ==> w.want_spec() <= data@.len(),
        ensures
            next.wf(),
            self.steps(rc, data@, next),
    {
        match self {
            Demo::Open => {
                if rc < 0 {
                    return Demo::Report {
                        ok: false,
                        text: "minix.rs init: fs.write FAIL open",
                    };
                }
                Demo::Write { fd: rc, off: 0 }
            },
            Demo::Write { fd, off } => {
                let want: usize = Demo::piece_len(off);
                if rc != want as i32 {
                    return Demo::Quit {
                        fd,
                        ok: false,
                        text: "minix.rs init: fs.write FAIL short",
                    };
                }
                let next: usize = off + want;
                if next < ROOTFS_SCRATCH_LEN {
                    Demo::Write { fd, off: next }
                } else {
                    Demo::Close { fd }
                }
            },
            Demo::Close { fd: _ } => {
                if rc != OK {
                    return Demo::Report {
                        ok: false,
                        text: "minix.rs init: fs.write FAIL close",
                    };
                }
                Demo::Reopen
            },
            Demo::Reopen => {
                if rc < 0 {
                    return Demo::Report {
                        ok: false,
                        text: "minix.rs init: fs.write FAIL reopen",
                    };
                }
                Demo::Verify { fd: rc, k: 0, w: Window::new(SCRATCH_WINDOWS_AT[0], 0) }
            },
            Demo::Verify { fd, k, w } => {
                let mut v = w;
                match v.take(rc, data) {
                    Progress::More => Demo::Verify { fd, k, w: v },
                    Progress::Failed => Demo::Quit {
                        fd,
                        ok: false,
                        text: "minix.rs init: fs.write FAIL verify",
                    },
                    Progress::Verified => {
                        if k < 2 {
                            Demo::Verify {
                                fd,
                                k: k + 1,
                                w: Window::new(SCRATCH_WINDOWS_AT[k + 1], v.pos),
                            }
                        } else {
                            Demo::Quit { fd, ok: true, text: WRITE_OK }
                        }
                    },
                }
            },
            Demo::Quit { fd: _, ok, text } => Demo::Report { ok, text },
            Demo::Report { ok, text } => Demo::Report { ok, text },
        }
    }
}

/// A run of the exercise: its states, and the results between them.
pub open spec fn is_run(states: Seq<Demo>, results: Seq<(i32, Seq<u8>)>) -> bool {
    &&& states.len() == results.len() + 1
    &&& states[0] is Open
    &&& forall|i: int| 0 <= i < states.len() ==> #[trigger] states[i].wf()
    &&& forall|i: int|
        #![trigger results[i]]
        0 <= i < results.len() ==> states[i].steps(results[i].0, results[i].1, states[i + 1])
}

/// Part `j` was completed, and held the pattern, within the first `n` results.
pub open spec fn verified_by(
    states: Seq<Demo>,
    results: Seq<(i32, Seq<u8>)>,
    n: int,
    j: int,
) -> bool {
    exists|i: int|
        #![trigger results[i]]
        0 <= i < n && states[i].completes(j, results[i].0, results[i].1)
}

proof fn lemma_run(states: Seq<Demo>, results: Seq<(i32, Seq<u8>)>, n: int, j: int)
    requires
        is_run(states, results),
        0 <= n < states.len(),
        0 <= j < 3,
    ensures
        (states[n] matches Demo::Verify { fd: _, k, w: _ } ==> (j < k ==> verified_by(
            states,
            results,
            n,
            j,
        ))),
        (states[n] matches Demo::Quit { fd: _, ok, text: _ } ==> (ok ==> verified_by(
            states,
            results,
            n,
            j,
        ))),
        (states[n] matches Demo::Report { ok, text: _ } ==> (ok ==> verified_by(
            states,
            results,
            n,
            j,
        ))),
    decreases n,
{
    if n > 0 {
        lemma_run(states, results, n - 1, j);
        let r = results[n - 1];
        let s = states[n - 1];
        assert(s.steps(r.0, r.1, states[n]));
        assert(s.wf());
        if verified_by(states, results, n - 1, j) {
            let i = choose|i: int|
                #![trigger results[i]]
                0 <= i < n - 1 && states[i].completes(j, results[i].0, results[i].1);
            assert(results[i] == results[i]);
        }
        if s.completes(j, r.0, r.1) {
            assert(results[n - 1] == r);
        }
    }
}

/// The exercise reports success only if each of the three parts was read back and
/// held what was written there.
pub proof fn law_ok_means_verified(
    states: Seq<Demo>,
    results: Seq<(i32, Seq<u8>)>,
    n: int,
    j: int,
)
    requires
        is_run(states, results),
        0 <= n < states.len(),
        states[n] matches Demo::Report { ok, text: _ } && ok,
        0 <= j < 3,
    ensures
        verified_by(states, results, n, j),
{
    lemma_run(states, results, n, j);
}

/// A part holds what was written exactly when every byte of it is the one its place in
/// the file was given.
pub proof fn law_verified_bytes_are_the_pattern(b: Seq<u8>, start: int)
    requires
        0 <= start,
    ensures
        matches_pattern(b, start) <==> forall|i: int|
            0 <= i < b.len() ==> #[trigger] b[i] == (start + i) % 251,
{
    if forall|i: int| 0 <= i < b.len() ==> #[trigger] b[i] == (start + i) % 251 {
        assert forall|i: int| 0 <= i < b.len() implies #[trigger] b[i] == rootfs::scratch_byte(
            start + i,
        ) by {
            assert(b[i] == (start + i) % 251);
        }
    }
    if matches_pattern(b, start) {
        assert forall|i: int| 0 <= i < b.len() implies #[trigger] b[i] == (start + i) % 251 by {
            assert(b[i] == rootfs::scratch_byte(start + i));
        }
    }
}

} // verus!
