//! Decisions of the minimalist init: its command-line options, reaping
//! children on SIGCHLD, and how it reports the death of the child it started.
use vstd::prelude::*;

use crate::mach::c_int;
use crate::wait::{WEXITSTATUS, WIFSIGNALED, WIFSTOPPED, WTERMSIG};

verus! {

pub type error_t = c_int;

pub type pid_t = c_int;

/// `ARGP_ERR_UNKNOWN` (E2BIG on the Hurd, tagged with the POSIX subsystem).
pub const ARGP_ERR_UNKNOWN: error_t = 0x40000007;

/// Option keys: `-s` (single-user) and `-a` (ignored, for sysvinit).
pub const KEY_S: c_int = 0x73;

pub const KEY_A: c_int = 0x61;

/// What an option key does.
#[derive(Clone, Copy, PartialEq, Eq, Structural, Debug)]
pub enum InitOption {
    /// `-s`: record single-user mode.
    SingleUser,
    /// `-a`: accepted and ignored.
    Ignored,
    /// Not one of ours: argp should try elsewhere.
    Unknown,
}

impl InitOption {
    /// The code the argp parser returns for this option.
    pub fn status(self) -> (r: error_t)
        ensures
            r == (if self == InitOption::Unknown {
                ARGP_ERR_UNKNOWN
            } else {
                0
            }),
    {
        match self {
            InitOption::Unknown => ARGP_ERR_UNKNOWN,
            _ => 0,
        }
    }
}

/// Classify an argp key.
pub fn parse_opt(key: c_int) -> (r: InitOption)
    ensures
        r == (if key == KEY_S {
            InitOption::SingleUser
        } else if key == KEY_A {
            InitOption::Ignored
        } else {
            InitOption::Unknown
        }),
{
    if key == KEY_S {
        InitOption::SingleUser
    } else if key == KEY_A {
        InitOption::Ignored
    } else {
        InitOption::Unknown
    }
}

/// How the death of the started child is reported.
#[derive(Clone, Copy, PartialEq, Eq, Structural, Debug)]
pub enum ChildReport {
    /// "terminated abnormally (<signal>)"
    Signaled(c_int),
    /// "stopped abnormally (<signal>)"
    Stopped(c_int),
    /// "finished"
    Finished,
    /// "exited with status <n>"
    Exited(c_int),
}

/// The report for a wait status: signaled, then stopped, then the exit code.
pub open spec fn spec_child_report(status: c_int) -> ChildReport {
    if status & 0x7f != 0 && status & 0x7f != 0x7f {
        ChildReport::Signaled(status & 0x7f)
    } else if status & 0xff == 0x7f {
        ChildReport::Stopped(status & 0x7f)
    } else if (status >> 8i32) & 0xff == 0 {
        ChildReport::Finished
    } else {
        ChildReport::Exited((status >> 8i32) & 0xff)
    }
}

/// Classify a wait status, checking signaled, then stopped, then the exit code.
pub fn child_report(status: c_int) -> (r: ChildReport)
    ensures
        r == spec_child_report(status),
{
    if WIFSIGNALED(status) {
        ChildReport::Signaled(WTERMSIG(status))
    } else if WIFSTOPPED(status) {
        ChildReport::Stopped(WTERMSIG(status))
    } else if WEXITSTATUS(status) == 0 {
        ChildReport::Finished
    } else {
        ChildReport::Exited(WEXITSTATUS(status))
    }
}

/// What the SIGCHLD handler does with one `waitpid` result.
#[derive(Clone, Copy, PartialEq, Eq, Structural, Debug)]
pub enum ReapAction {
    /// No child left to reap: leave the handler.
    NoMoreChildren,
    /// An adopted orphan was reaped: nothing to report, wait again.
    ReapedOrphan,
    /// The started child died: report it and stop.
    ChildDied(ChildReport),
}

/// One turn of the SIGCHLD handler: given the pid of the started child and
/// what `waitpid` returned, the child pid to keep and what to do. The started
/// child's pid is forgotten (set to -1) once it is reaped.
pub fn reap_step(child_pid: pid_t, waited: pid_t, status: c_int) -> (r: (pid_t, ReapAction))
    ensures
        waited <= 0 ==> r == (child_pid, ReapAction::NoMoreChildren),
        waited > 0 && waited != child_pid ==> r == (child_pid, ReapAction::ReapedOrphan),
        waited > 0 && waited == child_pid ==> r == (-1i32, ReapAction::ChildDied(
            spec_child_report(status),
        )),
{
    if waited <= 0 {
        (child_pid, ReapAction::NoMoreChildren)
    } else if waited == child_pid {
        (-1, ReapAction::ChildDied(child_report(status)))
    } else {
        (child_pid, ReapAction::ReapedOrphan)
    }
}

/// A child that was neither signaled nor stopped (low seven status bits
/// zero) is reported as finished exactly when its exit status is zero, and
/// otherwise as exited with that status; a finished report never hides a
/// nonzero exit status, and an exit report never carries zero.
pub proof fn lemma_exit_reports(status: c_int)
    ensures
        status & 0x7f == 0 && (status >> 8i32) & 0xff == 0 ==> spec_child_report(status)
            == ChildReport::Finished,
        status & 0x7f == 0 && (status >> 8i32) & 0xff != 0 ==> spec_child_report(status)
            == ChildReport::Exited((status >> 8i32) & 0xff),
        spec_child_report(status) == ChildReport::Finished ==> (status >> 8i32) & 0xff == 0,
        forall|c: c_int|
            spec_child_report(status) == ChildReport::Exited(c) ==> c != 0 && c == (status
                >> 8i32) & 0xff,
{
    assert((status & 0x7f == 0) ==> (status & 0xff != 0x7f)) by (bit_vector);
    assert((status & 0xff == 0x7f) ==> (status & 0x7f == 0x7f)) by (bit_vector);
}

} // verus!
