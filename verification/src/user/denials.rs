//! The requests the first process makes that must be refused. A battery stops at
//! the first that is not, and names it.
use vstd::prelude::*;
use vstd::string::*;
use crate::abi::callnr::{
    FS_PATH_MAX, NR_VFS_MSGS, PM_EXEC, PM_EXEC_PATH_MAX, VFS_CLOSE, VFS_EXEC_STAGE, VFS_OPEN,
    VFS_READ, VFS_RQ_BASE, VFS_WRITE,
};
use crate::abi::com;
use crate::abi::com::{boot_endpoint, PM_PROC_NR, VFS_PROC_NR};
use crate::abi::endpoint::Endpoint;
use crate::abi::errno::{
    EBADF, EFAULT, EINVAL, EISDIR, ENAMETOOLONG, ENOENT, ENOEXEC, ENOSYS, EPERM, OK,
};
use crate::abi::message::{Message, USER_VA_TOP};
use crate::abi::rootfs::{ROOTFS_HELLO_PATH, ROOTFS_MOTD_PATH};
use crate::abi::uspace::USER_DEVICE_WINDOW_BASE;
use crate::rt::kcall;
use crate::rt::kcall::call_result;
use crate::user::line;
use crate::user::line::named_line;
use crate::user::request;
use crate::user::request::{exec_request, open_request, stage_request, vfs_request, STDERR, STDOUT};
use crate::vfs::open;
use crate::vfs::rw;

verus! {

/// An address nothing is mapped at.
pub const UNMAPPED_VA: u64 = 0x0030_0000;

/// A request one past the last the file server knows.
pub const UNKNOWN_REQUEST: i32 = VFS_RQ_BASE + NR_VFS_MSGS as i32;

/// Probes of the open battery.
pub const OPEN_DENIAL_PROBES: usize = 7;

/// Probes of the exec battery.
pub const EXEC_DENIAL_PROBES: usize = 8;

/// The unmapped address passes every check ahead of the page-table walk that is
/// to refuse it.
pub proof fn law_unmapped_address_reaches_the_walk()
    ensures
        UNMAPPED_VA != 0,
        UNMAPPED_VA < USER_VA_TOP,
        UNMAPPED_VA < USER_DEVICE_WINDOW_BASE,
        crate::abi::message::user_range(UNMAPPED_VA, FS_PATH_MAX as u64),
{
}

/// What a battery does next.
pub enum Verdict {
    /// Go on to the next request.
    Next,
    /// Stop and print this on the descriptor.
    Fail(i32, Vec<u8>),
    /// All refused: print this on the descriptor.
    Pass(i32, &'static str),
}

impl Verdict {
    /// The verdict passes with this line, printed on `fd`.
    pub open spec fn passes(self, fd: i32, text: Seq<char>) -> bool {
        self matches Verdict::Pass(on, t) && on == fd && t@ == text
    }

    /// The verdict fails with the line that `head` and `name` make, printed as an
    /// error.
    pub open spec fn fails(self, head: Seq<u8>, name: Seq<u8>) -> bool {
        self matches Verdict::Fail(on, v) && on == STDERR && v@ == line::cut(
            head + name + seq![10u8],
        )
    }
}

/// A write that must be refused, and how.
#[derive(Copy, Clone, Debug)]
pub struct WriteProbe {
    pub name: &'static str,
    pub m_type: i32,
    pub fd: i32,
    pub buf: u64,
    pub len: i32,
    pub want: i32,
}

/// The probe has this name and asks for this, and must be refused like this.
pub open spec fn is_probe(
    p: WriteProbe,
    name: Seq<char>,
    m_type: i32,
    fd: i32,
    buf: u64,
    len: i32,
    want: i32,
) -> bool {
    &&& p.name@ == name
    &&& p.m_type == m_type
    &&& p.fd == fd
    &&& p.buf == buf
    &&& p.len == len
    &&& p.want == want
}

/// Write probe `k` of a battery over the buffer of `len` bytes at `addr`.
pub open spec fn write_probe(p: WriteProbe, k: int, addr: u64, len: i32) -> bool {
    if k == 0 {
        is_probe(p, "bad-fd"@, VFS_WRITE, 3, addr, len, EBADF)
    } else if k == 1 {
        is_probe(p, "no-such"@, UNKNOWN_REQUEST, STDOUT, addr, len, ENOSYS)
    } else if k == 2 {
        is_probe(p, "bad-buf"@, VFS_WRITE, STDOUT, UNMAPPED_VA, len, EFAULT)
    } else {
        is_probe(p, "bad-len"@, VFS_WRITE, STDOUT, addr, -1i32, EINVAL)
    }
}

/// The four writes that must be refused, each in order but for one field. `addr`
/// and `len` are those of a buffer that is in order.
pub fn deny_probes(addr: u64, len: i32) -> (p: [WriteProbe; 4])
    ensures
        write_probe(p@[0], 0, addr, len),
        write_probe(p@[1], 1, addr, len),
        write_probe(p@[2], 2, addr, len),
        write_probe(p@[3], 3, addr, len),
{
    [
        WriteProbe { name: "bad-fd", m_type: VFS_WRITE, fd: 3, buf: addr, len, want: EBADF },
        WriteProbe {
            name: "no-such",
            m_type: UNKNOWN_REQUEST,
            fd: STDOUT,
            buf: addr,
            len,
            want: ENOSYS,
        },
        WriteProbe {
            name: "bad-buf",
            m_type: VFS_WRITE,
            fd: STDOUT,
            buf: UNMAPPED_VA,
            len,
            want: EFAULT,
        },
        WriteProbe {
            name: "bad-len",
            m_type: VFS_WRITE,
            fd: STDOUT,
            buf: addr,
            len: -1,
            want: EINVAL,
        },
    ]
}

/// Build the request of a write probe, and say whom it goes to: the file server.
pub fn deny_call(probe: &WriteProbe) -> (c: (Endpoint, Message))
    ensures
        c.0 == com::boot_spec(VFS_PROC_NR as int),
        c.1.carries(
            probe.m_type,
            rw::request_payload((rw::Request { fd: probe.fd, len: probe.len, buf: probe.buf })),
        ),
{
    let m = vfs_request(probe.m_type, probe.fd, probe.buf, probe.len);
    (boot_endpoint(VFS_PROC_NR), m)
}

/// What write probe `i` leads to when it came back as it must: the next one, or the end.
pub open spec fn last_write(i: int) -> bool {
    i >= 3
}

/// Take the answer to write probe `i`.
pub fn deny_step(i: usize, probe: &WriteProbe, rc: i32) -> (v: Verdict)
    ensures
        rc != probe.want ==> v.fails(
            "minix.rs init: vfs.deny FAIL ".spec_bytes(),
            probe.name.spec_bytes(),
        ),
        rc == probe.want && !last_write(i as int) ==> v is Next,
        rc == probe.want && last_write(i as int) ==> v.passes(
            STDERR,
            "minix.rs init: vfs.deny ok n=4\n"@,
        ),
{
    if rc != probe.want {
        return Verdict::Fail(STDERR, named_line("minix.rs init: vfs.deny FAIL ", probe.name));
    }
    if i < 3 {
        Verdict::Next
    } else {
        Verdict::Pass(STDERR, "minix.rs init: vfs.deny ok n=4\n")
    }
}

/// How far the open battery has come.
#[derive(Copy, Clone, Debug, PartialEq, Eq, Structural)]
pub enum OpenStage {
    /// A path with no such file.
    NoSuch,
    /// A directory.
    IsDir,
    /// A path that fills its field.
    TooLong,
    /// A length below zero.
    BadLen,
    /// A path at an address nothing is mapped at.
    BadBuf,
    /// A read of the console.
    ReadConsole,
    /// An open that must succeed, for the two closes.
    Setup,
    /// A close that must succeed.
    Close(i32),
    /// The same close again.
    CloseAgain(i32),
    /// Nothing more.
    Done,
}

/// The path a stage opens.
pub open spec fn open_path_spec(s: OpenStage) -> Seq<char> {
    match s {
        OpenStage::NoSuch => "/no-such-file"@,
        OpenStage::IsDir => "/etc"@,
        _ => ROOTFS_MOTD_PATH@,
    }
}

/// The path whose address and length [`open_call`] is to be given.
pub fn open_path(s: OpenStage) -> (p: &'static str)
    ensures
        p@ == open_path_spec(s),
{
    match s {
        OpenStage::NoSuch => "/no-such-file",
        OpenStage::IsDir => "/etc",
        _ => ROOTFS_MOTD_PATH,
    }
}

/// The request of a stage. `addr` and `len` are those of [`open_path`], and `buf`
/// of a small buffer.
pub open spec fn open_asks(s: OpenStage, addr: u64, len: i32, buf: u64, m: Message) -> bool {
    let opens = |p: u64, n: i32|
        m.carries(VFS_OPEN, open::request_payload((open::OpenRequest { path: p, len: n })));
    match s {
        OpenStage::NoSuch | OpenStage::IsDir | OpenStage::Setup => opens(addr, len),
        OpenStage::TooLong => opens(addr, FS_PATH_MAX as i32),
        OpenStage::BadLen => opens(addr, -1i32),
        OpenStage::BadBuf => opens(UNMAPPED_VA, 9),
        OpenStage::ReadConsole => m.carries(
            VFS_READ,
            rw::request_payload((rw::Request { fd: STDOUT, len: 8, buf })),
        ),
        OpenStage::Close(fd) | OpenStage::CloseAgain(fd) => m.carries(
            VFS_CLOSE,
            rw::request_payload((rw::Request { fd, len: 0, buf: 0 })),
        ),
        OpenStage::Done => false,
    }
}

/// Build the request of a stage, and say whom it goes to: always the file server.
pub fn open_call(s: OpenStage, addr: u64, len: i32, buf: u64) -> (c: Option<(Endpoint, Message)>)
    ensures
        match c {
            Some((to, m)) => to == com::boot_spec(VFS_PROC_NR as int) && open_asks(
                s,
                addr,
                len,
                buf,
                m,
            ),
            None => s is Done,
        },
{
    let vfs: Endpoint = boot_endpoint(VFS_PROC_NR);
    match s {
        OpenStage::NoSuch | OpenStage::IsDir | OpenStage::Setup => Some(
            (vfs, open_request(addr, len)),
        ),
        OpenStage::TooLong => Some((vfs, open_request(addr, FS_PATH_MAX as i32))),
        OpenStage::BadLen => Some((vfs, open_request(addr, -1))),
        OpenStage::BadBuf => Some((vfs, open_request(UNMAPPED_VA, 9))),
        OpenStage::ReadConsole => Some((vfs, vfs_request(VFS_READ, STDOUT, buf, 8))),
        OpenStage::Close(fd) => Some((vfs, vfs_request(VFS_CLOSE, fd, 0, 0))),
        OpenStage::CloseAgain(fd) => Some((vfs, vfs_request(VFS_CLOSE, fd, 0, 0))),
        OpenStage::Done => None,
    }
}

/// The name of a stage, whether its answer is the one expected, and the stage
/// after it.
pub open spec fn open_judged(s: OpenStage, rc: i32) -> (Seq<char>, bool, OpenStage) {
    match s {
        OpenStage::NoSuch => ("no-such"@, rc == ENOENT, OpenStage::IsDir),
        OpenStage::IsDir => ("is-dir"@, rc == EISDIR, OpenStage::TooLong),
        OpenStage::TooLong => ("too-long"@, rc == ENAMETOOLONG, OpenStage::BadLen),
        OpenStage::BadLen => ("bad-len"@, rc == EINVAL, OpenStage::BadBuf),
        OpenStage::BadBuf => ("bad-buf"@, rc == EFAULT, OpenStage::ReadConsole),
        OpenStage::ReadConsole => ("read-console"@, rc == ENOSYS, OpenStage::Setup),
        OpenStage::Setup => ("setup"@, rc >= 0, OpenStage::Close(rc)),
        OpenStage::Close(fd) => ("close-twice"@, rc == OK, OpenStage::CloseAgain(fd)),
        OpenStage::CloseAgain(_) => ("close-twice"@, rc == EBADF, OpenStage::Done),
        OpenStage::Done => (""@, true, OpenStage::Done),
    }
}

/// Take the answer of a stage.
pub fn open_step(s: OpenStage, rc: i32) -> (r: (OpenStage, Verdict))
    ensures
        ({
            let (name, good, next) = open_judged(s, rc);
            &&& good ==> r.0 == next
            &&& !good ==> r.0 is Done && r.1.fails(
                "minix.rs init: open.deny FAIL ".spec_bytes(),
                vstd::utf8::encode_utf8(name),
            )
            &&& good && !(next is Done) ==> r.1 is Next
            &&& good && next is Done ==> r.1.passes(
                STDERR,
                "minix.rs init: open.deny ok n=7\n"@,
            )
        }),
{
    let (name, good, next): (&'static str, bool, OpenStage) = match s {
        OpenStage::NoSuch => ("no-such", rc == ENOENT, OpenStage::IsDir),
        OpenStage::IsDir => ("is-dir", rc == EISDIR, OpenStage::TooLong),
        OpenStage::TooLong => ("too-long", rc == ENAMETOOLONG, OpenStage::BadLen),
        OpenStage::BadLen => ("bad-len", rc == EINVAL, OpenStage::BadBuf),
        OpenStage::BadBuf => ("bad-buf", rc == EFAULT, OpenStage::ReadConsole),
        OpenStage::ReadConsole => ("read-console", rc == ENOSYS, OpenStage::Setup),
        OpenStage::Setup => ("setup", rc >= 0, OpenStage::Close(rc)),
        OpenStage::Close(fd) => ("close-twice", rc == OK, OpenStage::CloseAgain(fd)),
        OpenStage::CloseAgain(_) => ("close-twice", rc == EBADF, OpenStage::Done),
        OpenStage::Done => ("", true, OpenStage::Done),
    };
    if !good {
        return (
            OpenStage::Done,
            Verdict::Fail(STDERR, named_line("minix.rs init: open.deny FAIL ", name)),
        );
    }
    match next {
        OpenStage::Done => (next, Verdict::Pass(STDERR, "minix.rs init: open.deny ok n=7\n")),
        _ => (next, Verdict::Next),
    }
}

/// How far the exec battery has come.
#[derive(Copy, Clone, Debug, PartialEq, Eq, Structural)]
pub enum ExecStage {
    /// A path with no such file.
    NoSuch,
    /// A directory.
    IsDir,
    /// A path that is not absolute is a module name, and there is no such module.
    Relative,
    /// A module that does not exist.
    NoModule,
    /// A file that is no program.
    NotElf,
    /// A target with no terminator.
    TooLong,
    /// No target at all.
    Empty,
    /// Staging, which only the process manager may ask for.
    StageNotPm,
    /// Nothing more.
    Done,
}

/// The target a stage execs, as text; the two that are not text are apart.
pub open spec fn exec_target(s: ExecStage) -> Seq<char> {
    match s {
        ExecStage::NoSuch => "/no-such-file"@,
        ExecStage::IsDir => "/etc"@,
        ExecStage::Relative => "etc/motd"@,
        ExecStage::NoModule => "nosuchmod"@,
        ExecStage::NotElf => ROOTFS_MOTD_PATH@,
        _ => ""@,
    }
}

/// The payload of a stage's request.
pub open spec fn exec_field(b: Seq<u8>) -> Seq<u8> {
    request::exec_payload(b)
}

/// The request of a stage.
pub open spec fn exec_asks(s: ExecStage, m: Message) -> bool {
    match s {
        ExecStage::TooLong => m.carries(
            PM_EXEC,
            exec_field(Seq::new(PM_EXEC_PATH_MAX as nat, |i: int| 97u8)),
        ),
        ExecStage::Empty => m.carries(PM_EXEC, exec_field(Seq::empty())),
        ExecStage::StageNotPm => m.carries(
            VFS_EXEC_STAGE,
            request::stage_payload(ROOTFS_HELLO_PATH.spec_bytes()),
        ),
        ExecStage::Done => false,
        _ => m.carries(PM_EXEC, exec_field(vstd::utf8::encode_utf8(exec_target(s)))),
    }
}

/// Whom a stage asks: the process manager, but for staging, which is asked of the
/// file server itself.
pub open spec fn exec_to(s: ExecStage) -> int {
    if s is StageNotPm {
        com::boot_spec(VFS_PROC_NR as int)
    } else {
        com::boot_spec(PM_PROC_NR as int)
    }
}

/// Build the request of a stage, and say whom it goes to.
pub fn exec_call(s: ExecStage) -> (c: Option<(Endpoint, Message)>)
    ensures
        match c {
            Some((to, m)) => to == exec_to(s) && exec_asks(s, m),
            None => s is Done,
        },
{
    let pm: Endpoint = boot_endpoint(PM_PROC_NR);
    match s {
        ExecStage::NoSuch => Some((pm, exec_request("/no-such-file".as_bytes()))),
        ExecStage::IsDir => Some((pm, exec_request("/etc".as_bytes()))),
        ExecStage::Relative => Some((pm, exec_request("etc/motd".as_bytes()))),
        ExecStage::NoModule => Some((pm, exec_request("nosuchmod".as_bytes()))),
        ExecStage::NotElf => Some((pm, exec_request(ROOTFS_MOTD_PATH.as_bytes()))),
        ExecStage::TooLong => {
            let field = [97u8;64];
            assert(field@ =~= Seq::new(64, |i: int| 97u8));
            Some((pm, exec_request(field.as_slice())))
        },
        ExecStage::Empty => {
            let field: [u8; 0] = [];
            assert(field@ =~= Seq::empty());
            Some((pm, exec_request(field.as_slice())))
        },
        ExecStage::StageNotPm => Some(
            (boot_endpoint(VFS_PROC_NR), stage_request(ROOTFS_HELLO_PATH.as_bytes())),
        ),
        ExecStage::Done => None,
    }
}

/// What a stage's request came to. For the last only the answer counts.
pub open spec fn exec_outcome(s: ExecStage, trap_rc: i32, m_type: i32) -> i32 {
    if s is StageNotPm {
        if trap_rc == OK {
            m_type
        } else {
            OK
        }
    } else {
        kcall::result_of(trap_rc, m_type)
    }
}

/// The name of a stage, the answer expected, and the stage after it.
pub open spec fn exec_judged(s: ExecStage) -> (Seq<char>, i32, ExecStage) {
    match s {
        ExecStage::NoSuch => ("no-such"@, ENOENT, ExecStage::IsDir),
        ExecStage::IsDir => ("is-dir"@, EISDIR, ExecStage::Relative),
        ExecStage::Relative => ("relative"@, ENOENT, ExecStage::NoModule),
        ExecStage::NoModule => ("no-module"@, ENOENT, ExecStage::NotElf),
        ExecStage::NotElf => ("not-elf"@, ENOEXEC, ExecStage::TooLong),
        ExecStage::TooLong => ("too-long"@, ENAMETOOLONG, ExecStage::Empty),
        ExecStage::Empty => ("empty"@, EINVAL, ExecStage::StageNotPm),
        ExecStage::StageNotPm => ("stage-not-pm"@, EPERM, ExecStage::Done),
        ExecStage::Done => (""@, OK, ExecStage::Done),
    }
}

/// Take the answer of a stage.
pub fn exec_step(s: ExecStage, trap_rc: i32, reply: &Message) -> (r: (ExecStage, Verdict))
    requires
        !(s is Done),
    ensures
        ({
            let (name, want, next) = exec_judged(s);
            let good = exec_outcome(s, trap_rc, reply.m_type) == want;
            &&& good ==> r.0 == next
            &&& !good ==> r.0 is Done && r.1.fails(
                "minix.rs init: exec.deny FAIL ".spec_bytes(),
                vstd::utf8::encode_utf8(name),
            )
            &&& good && !(next is Done) ==> r.1 is Next
            &&& good && next is Done ==> r.1.passes(
                STDOUT,
                "minix.rs init: exec.deny ok n=8\n"@,
            )
        }),
{
    let mut rc: i32 = call_result(trap_rc, reply);
    let (name, want, next): (&'static str, i32, ExecStage) = match s {
        ExecStage::NoSuch => ("no-such", ENOENT, ExecStage::IsDir),
        ExecStage::IsDir => ("is-dir", EISDIR, ExecStage::Relative),
        ExecStage::Relative => ("relative", ENOENT, ExecStage::NoModule),
        ExecStage::NoModule => ("no-module", ENOENT, ExecStage::NotElf),
        ExecStage::NotElf => ("not-elf", ENOEXEC, ExecStage::TooLong),
        ExecStage::TooLong => ("too-long", ENAMETOOLONG, ExecStage::Empty),
        ExecStage::Empty => ("empty", EINVAL, ExecStage::StageNotPm),
        ExecStage::StageNotPm => {
            rc = if trap_rc == OK {
                reply.m_type
            } else {
                OK
            };
            ("stage-not-pm", EPERM, ExecStage::Done)
        },
        ExecStage::Done => ("", OK, ExecStage::Done),
    };
    if rc != want {
        return (
            ExecStage::Done,
            Verdict::Fail(STDERR, named_line("minix.rs init: exec.deny FAIL ", name)),
        );
    }
    match next {
        ExecStage::Done => (next, Verdict::Pass(STDOUT, "minix.rs init: exec.deny ok n=8\n")),
        _ => (next, Verdict::Next),
    }
}

/// Probes before a stage of the open battery; the one that must succeed is none.
pub open spec fn open_probes_before(s: OpenStage) -> int {
    match s {
        OpenStage::NoSuch => 0,
        OpenStage::IsDir => 1,
        OpenStage::TooLong => 2,
        OpenStage::BadLen => 3,
        OpenStage::BadBuf => 4,
        OpenStage::ReadConsole => 5,
        OpenStage::Setup | OpenStage::Close(_) | OpenStage::CloseAgain(_) => 6,
        OpenStage::Done => 7,
    }
}

/// Probes before a stage of the exec battery.
pub open spec fn exec_probes_before(s: ExecStage) -> int {
    match s {
        ExecStage::NoSuch => 0,
        ExecStage::IsDir => 1,
        ExecStage::Relative => 2,
        ExecStage::NoModule => 3,
        ExecStage::NotElf => 4,
        ExecStage::TooLong => 5,
        ExecStage::Empty => 6,
        ExecStage::StageNotPm => 7,
        ExecStage::Done => 8,
    }
}

/// A battery passes only after every one of its probes: as many as its last line
/// says.
pub proof fn law_batteries_count(s: OpenStage, e: ExecStage, rc: i32)
    ensures
        open_judged(s, rc).1 ==> open_probes_before(open_judged(s, rc).2) <= open_probes_before(s)
            + 1,
        exec_probes_before(exec_judged(e).2) <= exec_probes_before(e) + 1,
        open_probes_before(OpenStage::Done) == OPEN_DENIAL_PROBES,
        exec_probes_before(ExecStage::Done) == EXEC_DENIAL_PROBES,
{
}

/// Each of the four writes differs from one in order, to the standard output and from the
/// whole buffer, in exactly one thing, and must be refused for that. The fourth is the
/// last.
pub proof fn law_writes_break_one_rule(p: WriteProbe, k: int, addr: u64, len: i32)
    requires
        0 <= k < 4,
        write_probe(p, k, addr, len),
    ensures
        k == 0 ==> p.fd == 3 && p.want == EBADF,
        k != 0 ==> p.fd == STDOUT,
        k == 1 ==> p.m_type == VFS_RQ_BASE + NR_VFS_MSGS && p.want == ENOSYS,
        k != 1 ==> p.m_type == VFS_WRITE,
        k == 2 ==> p.buf == 0x30_0000 && p.want == EFAULT,
        k != 2 ==> p.buf == addr,
        k == 3 ==> p.len == -1 && p.want == EINVAL,
        k != 3 ==> p.len == len,
        last_write(k) <==> k == 3,
{
}

/// What each request of the open battery asks for, field by field.
pub proof fn law_open_probes_ask(s: OpenStage, addr: u64, len: i32, buf: u64, m: Message)
    requires
        open_asks(s, addr, len, buf, m),
    ensures
        s is NoSuch || s is IsDir || s is Setup ==> m.m_type == VFS_OPEN && open::request_of(
            m.payload@,
        ) == (open::OpenRequest { path: addr, len }),
        s is TooLong ==> m.m_type == VFS_OPEN && open::request_of(m.payload@).len == 64,
        s is BadLen ==> m.m_type == VFS_OPEN && open::request_of(m.payload@).len < 0,
        s is BadBuf ==> m.m_type == VFS_OPEN && open::request_of(m.payload@).path == 0x30_0000,
        s is ReadConsole ==> m.m_type == VFS_READ && rw::request_of(m.payload@).fd == STDOUT,
        s matches OpenStage::Close(fd) ==> m.m_type == VFS_CLOSE && rw::request_of(m.payload@).fd
            == fd,
        s matches OpenStage::CloseAgain(fd) ==> m.m_type == VFS_CLOSE && rw::request_of(
            m.payload@,
        ).fd == fd,
{
    open::law_parse_reads_back(open::OpenRequest { path: addr, len });
    open::law_parse_reads_back(open::OpenRequest { path: addr, len: 64 });
    open::law_parse_reads_back(open::OpenRequest { path: addr, len: -1i32 });
    open::law_parse_reads_back(open::OpenRequest { path: UNMAPPED_VA, len: 9 });
    rw::law_parse_reads_back(rw::Request { fd: STDOUT, len: 8, buf });
    if let OpenStage::Close(fd) = s {
        rw::law_parse_reads_back(rw::Request { fd, len: 0, buf: 0 });
    }
    if let OpenStage::CloseAgain(fd) = s {
        rw::law_parse_reads_back(rw::Request { fd, len: 0, buf: 0 });
    }
}

/// How each request of the open battery must come back, and that the file that was opened
/// is the one that is closed, twice.
pub proof fn law_open_answers_are_expected(rc: i32, fd: i32)
    ensures
        open_judged(OpenStage::NoSuch, rc).1 <==> rc == ENOENT,
        open_judged(OpenStage::IsDir, rc).1 <==> rc == EISDIR,
        open_judged(OpenStage::TooLong, rc).1 <==> rc == ENAMETOOLONG,
        open_judged(OpenStage::BadLen, rc).1 <==> rc == EINVAL,
        open_judged(OpenStage::BadBuf, rc).1 <==> rc == EFAULT,
        open_judged(OpenStage::ReadConsole, rc).1 <==> rc == ENOSYS,
        open_judged(OpenStage::Setup, rc).1 <==> rc >= 0,
        open_judged(OpenStage::Setup, rc).2 == OpenStage::Close(rc),
        open_judged(OpenStage::Close(fd), rc).1 <==> rc == OK,
        open_judged(OpenStage::Close(fd), rc).2 == OpenStage::CloseAgain(fd),
        open_judged(OpenStage::CloseAgain(fd), rc).1 <==> rc == EBADF,
{
}

/// Whom each request of the exec battery goes to and how it must come back. All are asked
/// of the process manager but the last, which is asked of the file server, and which only
/// an answer settles.
pub proof fn law_exec_answers_are_expected(s: ExecStage, trap_rc: i32, m_type: i32)
    ensures
        exec_judged(ExecStage::NoSuch).1 == ENOENT,
        exec_judged(ExecStage::IsDir).1 == EISDIR,
        exec_judged(ExecStage::Relative).1 == ENOENT,
        exec_judged(ExecStage::NoModule).1 == ENOENT,
        exec_judged(ExecStage::NotElf).1 == ENOEXEC,
        exec_judged(ExecStage::TooLong).1 == ENAMETOOLONG,
        exec_judged(ExecStage::Empty).1 == EINVAL,
        exec_judged(ExecStage::StageNotPm).1 == EPERM,
        exec_to(s) == com::boot_spec(VFS_PROC_NR as int) <==> s is StageNotPm,
        !(s is StageNotPm) ==> exec_to(s) == com::boot_spec(PM_PROC_NR as int),
        trap_rc == OK ==> exec_outcome(s, trap_rc, m_type) == m_type,
        trap_rc != OK && !(s is StageNotPm) ==> exec_outcome(s, trap_rc, m_type) == trap_rc,
        trap_rc != OK && s is StageNotPm ==> exec_outcome(s, trap_rc, m_type) == OK,
{
    kcall::law_first_failure_is_reported(trap_rc, m_type);
    com::law_boot_endpoints_distinct(VFS_PROC_NR as int, PM_PROC_NR as int);
}

} // verus!
