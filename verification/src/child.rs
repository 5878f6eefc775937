//! What runs between the first fork and the replacement of the process image.

use crate::bytes::{i32_bytes, i32_from_bytes, i32_of_bytes, i32_to_bytes, lemma_i32_round_trip};
use crate::platform::ByteOrder;
use vstd::prelude::*;

verus! {

/// The step of the bootstrap at which the forked process tree failed.
#[derive(Clone, Copy, Debug, PartialEq, Eq, Structural)]
pub enum NewErrorCause {
    /// The grandchild could not make the stream half its standard input.
    SetStdin,
    /// The grandchild could not make the stream half its standard output.
    SetStdout,
    /// The grandchild could not replace its image by the worker.
    Exec,
    /// The launcher could not fork the grandchild.
    DoubleFork,
}

impl NewErrorCause {
    /// The byte that stands for this cause on the error channel.
    pub open spec fn code(self) -> u8 {
        match self {
            NewErrorCause::SetStdin => 0,
            NewErrorCause::SetStdout => 1,
            NewErrorCause::Exec => 2,
            NewErrorCause::DoubleFork => 3,
        }
    }

    /// The cause that a byte of the error channel stands for, if any.
    pub open spec fn of_code(c: u8) -> Option<NewErrorCause> {
        if c == 0 {
            Some(NewErrorCause::SetStdin)
        } else if c == 1 {
            Some(NewErrorCause::SetStdout)
        } else if c == 2 {
            Some(NewErrorCause::Exec)
        } else if c == 3 {
            Some(NewErrorCause::DoubleFork)
        } else {
            None
        }
    }

    /// The cause that the byte `c` stands for: `None` for a byte above 3.
    pub fn from_u8(c: u8) -> (r: Option<Self>)
        ensures
            r == Self::of_code(c),
            r is Some <==> c <= 3,
            r matches Some(cause) ==> cause.code() == c,
    {
        match c {
            0 => Some(Self::SetStdin),
            1 => Some(Self::SetStdout),
            2 => Some(Self::Exec),
            3 => Some(Self::DoubleFork),
            _ => None,
        }
    }

    /// The byte that stands for this cause.
    pub fn to_u8(self) -> (c: u8)
        ensures
            c == self.code(),
    {
        match self {
            NewErrorCause::SetStdin => 0,
            NewErrorCause::SetStdout => 1,
            NewErrorCause::Exec => 2,
            NewErrorCause::DoubleFork => 3,
        }
    }
}

/// Every cause comes back from its byte, and every byte that stands for a
/// cause comes back from that cause.
pub proof fn lemma_cause_round_trip(cause: NewErrorCause, c: u8)
    ensures
        NewErrorCause::of_code(cause.code()) == Some(cause),
        NewErrorCause::of_code(c) matches Some(found) ==> found.code() == c,
        NewErrorCause::of_code(c) is Some <==> c <= 3,
{
}

/// A failure of the bootstrap: the step that failed and the OS error code it
/// failed with.
#[derive(Clone, Copy, Debug, PartialEq, Eq, Structural)]
pub struct NewError {
    /// The step that failed.
    pub cause: NewErrorCause,
    /// The OS error code that it failed with.
    pub errno: i32,
}

impl NewError {
    /// The record of this failure on the error channel: the byte of the cause,
    /// then the four bytes of the OS error code.
    pub open spec fn record(self, order: ByteOrder) -> Seq<u8> {
        seq![self.cause.code()] + i32_bytes(self.errno, order)
    }

    /// The failure that a record stands for. A record has five bytes and
    /// begins with the byte of a cause; nothing else is one.
    pub open spec fn parse(bytes: Seq<u8>, order: ByteOrder) -> Option<NewError> {
        if bytes.len() == 5 {
            match NewErrorCause::of_code(bytes[0]) {
                Some(cause) => Some(
                    NewError { cause, errno: i32_of_bytes(bytes.subrange(1, 5), order) },
                ),
                None => None,
            }
        } else {
            None
        }
    }

    /// Writes the record. It allocates nothing, so a freshly forked process
    /// may call it.
    pub fn to_bytes(&self, order: ByteOrder) -> (r: [u8; 5])
        ensures
            r@ == self.record(order),
    {
        let code = i32_to_bytes(self.errno, order);
        let r: [u8; 5] = [self.cause.to_u8(), code[0], code[1], code[2], code[3]];
        assert(r@ =~= self.record(order));
        r
    }

    /// Reads a record: `None` unless `bytes` is one.
    pub fn from_bytes(bytes: &[u8], order: ByteOrder) -> (r: Option<NewError>)
        ensures
            r == Self::parse(bytes@, order),
    {
        if bytes.len() != 5 {
            return None;
        }
        match NewErrorCause::from_u8(bytes[0]) {
            Some(cause) => {
                let code: [u8; 4] = [bytes[1], bytes[2], bytes[3], bytes[4]];
                assert(code@ =~= bytes@.subrange(1, 5));
                Some(NewError { cause, errno: i32_from_bytes(code, order) })
            },
            None => None,
        }
    }
}

/// Every failure comes back from its record: the four causes and all OS
/// error codes, in either byte order.
pub proof fn lemma_record_round_trip(e: NewError, order: ByteOrder)
    ensures
        e.record(order).len() == 5,
        NewError::parse(e.record(order), order) == Some(e),
{
    lemma_i32_round_trip(e.errno, order);
    let record = e.record(order);
    assert(record.subrange(1, 5) =~= i32_bytes(e.errno, order));
    assert(record[0] == e.cause.code());
}

/// Every record comes back from the failure it stands for, so no two
/// records stand for one failure.
pub proof fn lemma_parse_round_trip(bytes: Seq<u8>, order: ByteOrder)
    requires
        NewError::parse(bytes, order) is Some,
    ensures
        NewError::parse(bytes, order)->Some_0.record(order) == bytes,
{
    let e = NewError::parse(bytes, order)->Some_0;
    let code = bytes.subrange(1, 5);
    crate::bytes::lemma_i32_bytes_of_bytes(code, order);
    assert(e.record(order) =~= bytes);
}

/// How a fork came back to the process that asked.
#[derive(Clone, Copy, Debug, PartialEq, Eq, Structural)]
pub enum Forked {
    /// In the process that forked.
    Parent,
    /// In the new process.
    Child,
    /// Not at all: no process was made, and this is the OS error code.
    Failed(i32),
}

/// A step of the grandchild on its way to the worker's image.
#[derive(Clone, Copy, Debug, PartialEq, Eq, Structural)]
pub enum ChildStep {
    /// Make the stream half the standard input.
    SetStdin,
    /// Make the stream half the standard output.
    SetStdout,
    /// Replace the process image by the worker.
    Exec,
}

impl ChildStep {
    /// The cause that a failure of this step is reported under.
    pub open spec fn cause(self) -> NewErrorCause {
        match self {
            ChildStep::SetStdin => NewErrorCause::SetStdin,
            ChildStep::SetStdout => NewErrorCause::SetStdout,
            ChildStep::Exec => NewErrorCause::Exec,
        }
    }

    /// What follows this step: the next step where it went well, the failure
    /// to report where it did not. A replaced image never comes back, so a
    /// replacement that comes back without an error code has failed too, with
    /// the unknown code 0.
    pub open spec fn followed_by(self, failure: Option<i32>) -> Result<ChildStep, NewError> {
        match failure {
            Some(errno) => Err(NewError { cause: self.cause(), errno }),
            None => match self {
                ChildStep::SetStdin => Ok(ChildStep::SetStdout),
                ChildStep::SetStdout => Ok(ChildStep::Exec),
                ChildStep::Exec => Err(NewError { cause: NewErrorCause::Exec, errno: 0 }),
            },
        }
    }
}

/// Decides what the grandchild does after `step`, which failed with the OS
/// error code `failure` or, with `None`, went well.
pub fn grandchild_wrapped(step: ChildStep, failure: Option<i32>) -> (r: Result<ChildStep, NewError>)
    ensures
        r == step.followed_by(failure),
        failure matches Some(errno) ==> r == Err::<ChildStep, NewError>(
            NewError { cause: step.cause(), errno },
        ),
{
    match failure {
        Some(errno) => {
            let cause = match step {
                ChildStep::SetStdin => NewErrorCause::SetStdin,
                ChildStep::SetStdout => NewErrorCause::SetStdout,
                ChildStep::Exec => NewErrorCause::Exec,
            };
            Err(NewError { cause, errno })
        },
        None => match step {
            ChildStep::SetStdin => Ok(ChildStep::SetStdout),
            ChildStep::SetStdout => Ok(ChildStep::Exec),
            ChildStep::Exec => Err(NewError { cause: NewErrorCause::Exec, errno: 0 }),
        },
    }
}

/// What the forked side of the bootstrap has to do next. The caller performs
/// it and hands the outcome to [`Launcher::advance`].
#[derive(Clone, Copy, Debug, PartialEq, Eq, Structural)]
pub enum Launcher {
    /// Perform this step of the grandchild.
    Step(ChildStep),
    /// Write the record of this failure to the error channel.
    Report(NewError),
    /// Leave the process with this status.
    Exit(i32),
}

impl Launcher {
    /// The first thing to do after the second fork. The launcher leaves with
    /// status 0 as soon as the grandchild exists; where the fork failed it
    /// reports that instead.
    pub open spec fn start(forked: Forked) -> Launcher {
        match forked {
            Forked::Parent => Launcher::Exit(0),
            Forked::Child => Launcher::Step(ChildStep::SetStdin),
            Forked::Failed(errno) => Launcher::Report(
                NewError { cause: NewErrorCause::DoubleFork, errno },
            ),
        }
    }

    /// What follows: after a step what [`ChildStep::followed_by`] says, after a
    /// report the exit with status 1, whatever became of the write.
    pub open spec fn next(self, failure: Option<i32>) -> Launcher {
        match self {
            Launcher::Step(step) => match step.followed_by(failure) {
                Ok(following) => Launcher::Step(following),
                Err(e) => Launcher::Report(e),
            },
            Launcher::Report(_) => Launcher::Exit(1),
            Launcher::Exit(status) => Launcher::Exit(status),
        }
    }

    /// An upper bound on the actions that are still to come.
    pub open spec fn remaining(self) -> nat {
        match self {
            Launcher::Step(ChildStep::SetStdin) => 4,
            Launcher::Step(ChildStep::SetStdout) => 3,
            Launcher::Step(ChildStep::Exec) => 2,
            Launcher::Report(_) => 1,
            Launcher::Exit(_) => 0,
        }
    }

    /// Decides what follows the action `self`, which failed with the OS error
    /// code `failure` or, with `None`, went well.
    pub fn advance(self, failure: Option<i32>) -> (following: Launcher)
        ensures
            following == self.next(failure),
            self !is Exit ==> following.remaining() < self.remaining(),
            following is Report ==> self is Step && (failure is Some || self == Launcher::Step(
                ChildStep::Exec,
            )),
    {
        match self {
            Launcher::Step(step) => match grandchild_wrapped(step, failure) {
                Ok(following) => Launcher::Step(following),
                Err(e) => Launcher::Report(e),
            },
            Launcher::Report(_) => Launcher::Exit(1),
            Launcher::Exit(status) => Launcher::Exit(status),
        }
    }
}

/// Decides what the process made by the first fork does once it has forked
/// again.
pub fn new(forked: Forked) -> (first: Launcher)
    ensures
        first == Launcher::start(forked),
        first is Report <==> forked is Failed,
{
    match forked {
        Forked::Parent => Launcher::Exit(0),
        Forked::Child => Launcher::Step(ChildStep::SetStdin),
        Forked::Failed(errno) => Launcher::Report(
            NewError { cause: NewErrorCause::DoubleFork, errno },
        ),
    }
}

} // verus!
