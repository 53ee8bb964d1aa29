//! The first process's loop: fork, have the child run the next program, wait, and
//! report the first child's verdict once.
use vstd::prelude::*;
use vstd::string::*;
use crate::abi::callnr::PM_EXEC_PATH_MAX;
use crate::abi::errno::OK;
use crate::abi::rootfs::ROOTFS_HELLO_PATH;

verus! {

/// What is run, in turn: a module of the boot image first, then a program from
/// the filesystem.
pub const EXEC_TARGETS: [&'static str; 2] = ["worker", ROOTFS_HELLO_PATH];

/// Where the loop stands.
#[derive(Copy, Clone, Debug, PartialEq, Eq, Structural)]
pub struct Cycle {
    /// Pid of the first child; 0 before there is one.
    pub probe_pid: i32,
    /// Its verdict has been reported.
    pub reported: bool,
    /// Children forked so far.
    pub cycle: usize,
}

/// What a fork's answer makes of the process that reads it.
#[derive(Copy, Clone, Debug, PartialEq, Eq, Structural)]
pub enum Forked {
    /// This is the child: run the program.
    Child,
    /// This is the parent: wait.
    Parent,
    /// There is no child: try again later.
    Retry,
}

impl Cycle {
    /// No child yet.
    pub fn new() -> (c: Cycle)
        ensures
            c == (Cycle { probe_pid: 0, reported: false, cycle: 0 }),
    {
        Cycle { probe_pid: 0, reported: false, cycle: 0 }
    }

    /// The program this turn runs.
    pub open spec fn program(self) -> Seq<char> {
        EXEC_TARGETS@[self.cycle as int % 2]@
    }

    /// The program this turn runs. It is chosen ahead of the fork, so that parent
    /// and child agree on it.
    pub fn target(&self) -> (s: &'static str)
        ensures
            s@ == self.program(),
    {
        EXEC_TARGETS[self.cycle % 2]
    }

    /// The loop after a fork answered `m_type`.
    pub open spec fn after_fork(self, m_type: i32) -> (Forked, Cycle) {
        if m_type == 0 {
            (Forked::Child, self)
        } else if m_type > 0 {
            (
                Forked::Parent,
                Cycle {
                    cycle: if self.cycle == usize::MAX {
                        0
                    } else {
                        (self.cycle + 1) as usize
                    },
                    probe_pid: if self.probe_pid == 0 {
                        m_type
                    } else {
                        self.probe_pid
                    },
                    ..self
                },
            )
        } else {
            (Forked::Retry, self)
        }
    }

    /// Take a fork's answer: 0 in the child, the child's pid in the parent, below
    /// zero when there was no fork. The first child's pid is remembered.
    pub fn forked(&mut self, m_type: i32) -> (f: Forked)
        ensures
            (f, *final(self)) == old(self).after_fork(m_type),
    {
        if m_type == 0 {
            return Forked::Child;
        }
        if m_type > 0 {
            self.cycle = if self.cycle == usize::MAX {
                0
            } else {
                self.cycle + 1
            };
            if self.probe_pid == 0 {
                self.probe_pid = m_type;
            }
            return Forked::Parent;
        }
        Forked::Retry
    }

    /// The wait returned the first child, and nothing has been reported of it.
    pub open spec fn due(self, rc: i32, pid: i32) -> bool {
        !self.reported && rc == OK && pid == self.probe_pid
    }

    /// Take a wait's answer: whether this is the status to report.
    pub fn reaped(&mut self, rc: i32, pid: i32) -> (report: bool)
        ensures
            report == old(self).due(rc, pid),
            *final(self) == (Cycle { reported: old(self).reported || report, ..*old(self) }),
    {
        if !self.reported && rc == OK && pid == self.probe_pid {
            self.reported = true;
            return true;
        }
        false
    }
}

/// Every program fits the field an exec carries it in, with room for its NUL.
pub proof fn law_targets_fit(i: int)
    requires
        0 <= i < 2,
    ensures
        0 < EXEC_TARGETS@[i].spec_bytes().len() < PM_EXEC_PATH_MAX,
{
    reveal_strlit("worker");
    reveal_strlit("/bin/hello");
    is_ascii_spec_bytes("worker");
    is_ascii_spec_bytes(ROOTFS_HELLO_PATH);
    assert(vstd::utf8::is_ascii_chars("worker"@));
    assert(vstd::utf8::is_ascii_chars(ROOTFS_HELLO_PATH@));
}

/// The verdict that is reported is the first child's, whoever is collected before
/// it, and it is reported once.
pub proof fn law_one_verdict(c: Cycle, first: i32, later: i32, rc: i32, pid: i32)
    requires
        first > 0,
        later > 0,
        c.probe_pid == 0,
    ensures
        c.after_fork(first).1.after_fork(later).1.probe_pid == first,
        c.after_fork(first).1.due(rc, pid) ==> pid == first,
        !(Cycle { reported: true, ..c }).due(rc, pid),
{
}

/// The status that is reported is that of the first child, told by a wait that went well,
/// and it is reported once. Later children do not take its place, and neither does a fork
/// that failed.
pub proof fn law_first_child_is_reported(c: Cycle, rc: i32, pid: i32, m_type: i32)
    ensures
        c.due(rc, pid) <==> !c.reported && rc == 0 && pid == c.probe_pid,
        m_type > 0 && c.probe_pid == 0 ==> c.after_fork(m_type).1.probe_pid == m_type,
        m_type <= 0 || c.probe_pid != 0 ==> c.after_fork(m_type).1.probe_pid == c.probe_pid,
        c.after_fork(m_type).1.reported == c.reported,
{
}

} // verus!
