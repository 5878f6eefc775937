//! The ways in which a spawn fails.

use crate::child::{NewError, NewErrorCause};
use vstd::prelude::*;

verus! {

/// Why no connection to a worker came about. An OS error code is 0 where the
/// failure carried none that the platform knows.
#[derive(Clone, Copy, Debug, PartialEq, Eq, Structural)]
pub enum NewNixError {
    /// The stream pair could not be created.
    CreatingChannel(i32),
    /// The error channel could not be created.
    CreatingPipe(i32),
    /// The first fork failed.
    Forking(i32),
    /// Waiting for the launcher failed.
    Waiting(i32),
    /// The launcher's own fork failed.
    DoubleForking(i32),
    /// A signal, of this number, killed the launcher.
    HelperSignalled(i32),
    /// The error channel could not be read.
    ReadingPipe(i32),
    /// The grandchild could not redirect its standard input.
    HelperStdin(i32),
    /// The grandchild could not redirect its standard output.
    HelperStdout(i32),
    /// The grandchild could not replace its image by the worker.
    HelperExec(i32),
    /// Fatal: the wait reported a state that a launcher cannot be in.
    UnexpectedWaitStatus,
    /// Fatal: what came over the error channel is no failure record.
    MalformedReport,
    /// Fatal: the supervisor was handed the outcome of an action that it had
    /// not asked for.
    OutOfSequence,
}

impl NewNixError {
    /// The failure of a spawn that a failure reported by the forked side
    /// amounts to.
    pub open spec fn reported(cause: NewErrorCause, errno: i32) -> NewNixError {
        match cause {
            NewErrorCause::SetStdin => NewNixError::HelperStdin(errno),
            NewErrorCause::SetStdout => NewNixError::HelperStdout(errno),
            NewErrorCause::Exec => NewNixError::HelperExec(errno),
            NewErrorCause::DoubleFork => NewNixError::DoubleForking(errno),
        }
    }

    /// Whether this failure shows that the two sides of the bootstrap, or the
    /// supervisor and its driver, disagree on their contract.
    pub open spec fn fatal(self) -> bool {
        self is UnexpectedWaitStatus || self is MalformedReport || self is OutOfSequence
    }

    /// The OS error code or signal number that this failure carries.
    pub open spec fn code(self) -> Option<i32> {
        match self {
            NewNixError::CreatingChannel(c) => Some(c),
            NewNixError::CreatingPipe(c) => Some(c),
            NewNixError::Forking(c) => Some(c),
            NewNixError::Waiting(c) => Some(c),
            NewNixError::DoubleForking(c) => Some(c),
            NewNixError::HelperSignalled(c) => Some(c),
            NewNixError::ReadingPipe(c) => Some(c),
            NewNixError::HelperStdin(c) => Some(c),
            NewNixError::HelperStdout(c) => Some(c),
            NewNixError::HelperExec(c) => Some(c),
            NewNixError::UnexpectedWaitStatus => None,
            NewNixError::MalformedReport => None,
            NewNixError::OutOfSequence => None,
        }
    }

    /// What this failure is called in a diagnostic.
    pub open spec fn text(self) -> Seq<char> {
        match self {
            NewNixError::CreatingChannel(_) => "creating communication channel with socketpair"@,
            NewNixError::CreatingPipe(_) => "creating internal error channel with pipe"@,
            NewNixError::Forking(_) => "forking ffi-helper"@,
            NewNixError::Waiting(_) => "waiting for ffi-helper to fork"@,
            NewNixError::DoubleForking(_) => "double-forking ffi-helper"@,
            NewNixError::HelperSignalled(_) => "ffi-helper signalled"@,
            NewNixError::ReadingPipe(_) => "reading from internal error channel"@,
            NewNixError::HelperStdin(_) => "setting stdin for ffi-helper"@,
            NewNixError::HelperStdout(_) => "setting stdout for ffi-helper"@,
            NewNixError::HelperExec(_) => "executing ffi-helper"@,
            NewNixError::UnexpectedWaitStatus => "erroneous wait status from waitpid"@,
            NewNixError::MalformedReport => "impossible byte over internal error channel"@,
            NewNixError::OutOfSequence => "bootstrap action out of sequence"@,
        }
    }

    /// What this failure is called in a diagnostic.
    pub fn message(&self) -> (m: &'static str)
        ensures
            m@ == self.text(),
    {
        match self {
            NewNixError::CreatingChannel(_) => "creating communication channel with socketpair",
            NewNixError::CreatingPipe(_) => "creating internal error channel with pipe",
            NewNixError::Forking(_) => "forking ffi-helper",
            NewNixError::Waiting(_) => "waiting for ffi-helper to fork",
            NewNixError::DoubleForking(_) => "double-forking ffi-helper",
            NewNixError::HelperSignalled(_) => "ffi-helper signalled",
            NewNixError::ReadingPipe(_) => "reading from internal error channel",
            NewNixError::HelperStdin(_) => "setting stdin for ffi-helper",
            NewNixError::HelperStdout(_) => "setting stdout for ffi-helper",
            NewNixError::HelperExec(_) => "executing ffi-helper",
            NewNixError::UnexpectedWaitStatus => "erroneous wait status from waitpid",
            NewNixError::MalformedReport => "impossible byte over internal error channel",
            NewNixError::OutOfSequence => "bootstrap action out of sequence",
        }
    }

    /// The OS error code or signal number that this failure carries.
    pub fn os_code(&self) -> (c: Option<i32>)
        ensures
            c == self.code(),
    {
        match self {
            NewNixError::CreatingChannel(c) => Some(*c),
            NewNixError::CreatingPipe(c) => Some(*c),
            NewNixError::Forking(c) => Some(*c),
            NewNixError::Waiting(c) => Some(*c),
            NewNixError::DoubleForking(c) => Some(*c),
            NewNixError::HelperSignalled(c) => Some(*c),
            NewNixError::ReadingPipe(c) => Some(*c),
            NewNixError::HelperStdin(c) => Some(*c),
            NewNixError::HelperStdout(c) => Some(*c),
            NewNixError::HelperExec(c) => Some(*c),
            NewNixError::UnexpectedWaitStatus => None,
            NewNixError::MalformedReport => None,
            NewNixError::OutOfSequence => None,
        }
    }

    /// Whether this failure shows a broken contract rather than a failed
    /// system call.
    pub fn is_fatal(&self) -> (f: bool)
        ensures
            f == self.fatal(),
    {
        match self {
            NewNixError::UnexpectedWaitStatus => true,
            NewNixError::MalformedReport => true,
            NewNixError::OutOfSequence => true,
            _ => false,
        }
    }

    /// Turns a failure reported by the forked side into the failure of the
    /// spawn, keeping its OS error code.
    pub fn from_report(e: NewError) -> (r: NewNixError)
        ensures
            r == Self::reported(e.cause, e.errno),
            !r.fatal(),
            r.code() == Some(e.errno),
    {
        match e.cause {
            NewErrorCause::SetStdin => NewNixError::HelperStdin(e.errno),
            NewErrorCause::SetStdout => NewNixError::HelperStdout(e.errno),
            NewErrorCause::Exec => NewNixError::HelperExec(e.errno),
            NewErrorCause::DoubleFork => NewNixError::DoubleForking(e.errno),
        }
    }
}

} // verus!
