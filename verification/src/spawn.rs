//! The caller's side of the bootstrap: which action comes when, and what
//! each outcome leads to.

use crate::conn::Nix;
use crate::error::NewNixError;
use crate::platform::Platform;
use vstd::prelude::*;

verus! {

/// The state in which a wait found the launcher.
#[derive(Clone, Copy, Debug, PartialEq, Eq, Structural)]
pub enum ChildStatus {
    /// It has left by itself.
    Exited,
    /// A signal, of this number, killed it.
    Signaled(i32),
    /// Any other state, none of which a launcher can be in.
    Other,
}

/// What to do once a wait for the launcher has come back.
#[derive(Clone, Copy, Debug, PartialEq, Eq, Structural)]
pub enum WaitStep {
    /// Wait again.
    Again,
    /// Go on: the launcher is gone.
    Reaped,
    /// Give up with this failure.
    Fail(NewNixError),
}

/// What a wait for the launcher leads to. A wait that a signal interrupted
/// is made again. A launcher that has left, or that is no child to wait for
/// any more, is done with. One that a signal killed fails the spawn; what
/// became of the grandchild is not read from that. Any other failure of the
/// wait fails the spawn, and any other state does so fatally.
pub open spec fn waited(outcome: Result<ChildStatus, i32>, platform: Platform) -> WaitStep {
    match outcome {
        Err(code) => if code == platform.interrupted {
            WaitStep::Again
        } else if code == platform.no_child {
            WaitStep::Reaped
        } else {
            WaitStep::Fail(NewNixError::Waiting(code))
        },
        Ok(ChildStatus::Exited) => WaitStep::Reaped,
        Ok(ChildStatus::Signaled(signal)) => WaitStep::Fail(NewNixError::HelperSignalled(signal)),
        Ok(ChildStatus::Other) => WaitStep::Fail(NewNixError::UnexpectedWaitStatus),
    }
}

/// Decides what to do once a wait for the launcher has come back with a
/// state or, as an error, with an OS error code.
pub fn wait_step(outcome: Result<ChildStatus, i32>, platform: &Platform) -> (step: WaitStep)
    ensures
        step == waited(outcome, *platform),
{
    match outcome {
        Err(code) => {
            if code == platform.interrupted {
                WaitStep::Again
            } else if code == platform.no_child {
                WaitStep::Reaped
            } else {
                WaitStep::Fail(NewNixError::Waiting(code))
            }
        },
        Ok(ChildStatus::Exited) => WaitStep::Reaped,
        Ok(ChildStatus::Signaled(signal)) => WaitStep::Fail(NewNixError::HelperSignalled(signal)),
        Ok(ChildStatus::Other) => WaitStep::Fail(NewNixError::UnexpectedWaitStatus),
    }
}

/// The outcome of an action that the supervisor asked for.
#[derive(Debug, PartialEq, Eq)]
pub enum SpawnEvent {
    /// The action went well and has nothing to hand back.
    Completed,
    /// The action failed with this OS error code.
    Failed(i32),
    /// The fork came back in the caller's process.
    InParent,
    /// The fork came back in the new process.
    InChild,
    /// The wait found the launcher in this state.
    Status(ChildStatus),
    /// The error channel was read to its end and held these bytes.
    Report(Vec<u8>),
}

/// What the caller's side of the bootstrap has to do next. The caller
/// performs it and hands the outcome to [`Supervisor::advance`].
#[derive(Debug, PartialEq, Eq)]
pub enum Supervisor {
    /// Create the connected pair of byte streams.
    CreateChannel,
    /// Create the error channel.
    CreatePipe,
    /// Fork.
    Fork,
    /// This is the new process: run the launcher, which never comes back.
    RunLauncher,
    /// Close the caller's copy of the write half of the error channel, so that
    /// only the forked side holds it open.
    CloseErrorWriter,
    /// Wait for the launcher, and for no other process.
    Wait,
    /// Read the error channel to its end.
    Drain,
    /// Nothing: the spawn is over, with this result.
    Done(Result<Nix, NewNixError>),
}

impl Supervisor {
    /// The failure that ends the spawn when this action fails, where it can
    /// fail on its own account.
    pub open spec fn failure(self, code: i32) -> Option<NewNixError> {
        match self {
            Supervisor::CreateChannel => Some(NewNixError::CreatingChannel(code)),
            Supervisor::CreatePipe => Some(NewNixError::CreatingPipe(code)),
            Supervisor::Fork => Some(NewNixError::Forking(code)),
            Supervisor::Drain => Some(NewNixError::ReadingPipe(code)),
            _ => None,
        }
    }

    /// What follows the action `self` on `event`, for every pair but the
    /// error channel's bytes, which [`Supervisor::follows`] covers. An event
    /// that the action cannot end in is fatal. Nothing follows the end of the
    /// spawn, nor the hand-over to the launcher.
    pub open spec fn next(self, event: SpawnEvent, platform: Platform) -> Supervisor {
        let out_of_sequence = Supervisor::Done(Err(NewNixError::OutOfSequence));
        match self {
            Supervisor::Done(_) => self,
            Supervisor::RunLauncher => self,
            Supervisor::CreateChannel => match event {
                SpawnEvent::Completed => Supervisor::CreatePipe,
                SpawnEvent::Failed(code) => Supervisor::Done(Err(NewNixError::CreatingChannel(code))),
                _ => out_of_sequence,
            },
            Supervisor::CreatePipe => match event {
                SpawnEvent::Completed => Supervisor::Fork,
                SpawnEvent::Failed(code) => Supervisor::Done(Err(NewNixError::CreatingPipe(code))),
                _ => out_of_sequence,
            },
            Supervisor::Fork => match event {
                SpawnEvent::InParent => Supervisor::CloseErrorWriter,
                SpawnEvent::InChild => Supervisor::RunLauncher,
                SpawnEvent::Failed(code) => Supervisor::Done(Err(NewNixError::Forking(code))),
                _ => out_of_sequence,
            },
            Supervisor::CloseErrorWriter => match event {
                SpawnEvent::Completed => Supervisor::Wait,
                _ => out_of_sequence,
            },
            Supervisor::Wait => {
                let outcome = match event {
                    SpawnEvent::Status(status) => Some(Ok::<ChildStatus, i32>(status)),
                    SpawnEvent::Failed(code) => Some(Err::<ChildStatus, i32>(code)),
                    _ => None,
                };
                match outcome {
                    Some(o) => match waited(o, platform) {
                        WaitStep::Again => Supervisor::Wait,
                        WaitStep::Reaped => Supervisor::Drain,
                        WaitStep::Fail(e) => Supervisor::Done(Err(e)),
                    },
                    None => out_of_sequence,
                }
            },
            Supervisor::Drain => match event {
                SpawnEvent::Failed(code) => Supervisor::Done(Err(NewNixError::ReadingPipe(code))),
                _ => out_of_sequence,
            },
        }
    }

    /// Whether `following` may follow the action `self` on `event`. The
    /// bytes of the error channel end the spawn as [`Nix::resolves`] says;
    /// every other pair has the one successor that [`Supervisor::next`] gives.
    pub open spec fn follows(
        self,
        event: SpawnEvent,
        platform: Platform,
        following: Supervisor,
    ) -> bool {
        match (self, event) {
            (Supervisor::Drain, SpawnEvent::Report(bytes)) => following matches Supervisor::Done(
                outcome,
            ) && Nix::resolves(bytes@, platform.order, outcome),
            _ => following == self.next(event, platform),
        }
    }

    /// Whether the spawn is over for this process: it has its result, or it
    /// is the new process and belongs to the launcher.
    pub open spec fn over(self) -> bool {
        self is Done || self is RunLauncher
    }

    /// The first action of a spawn.
    pub fn new() -> (first: Supervisor)
        ensures
            first == Supervisor::CreateChannel,
    {
        Supervisor::CreateChannel
    }

    /// Decides what follows the action `self`, which ended in `event`.
    pub fn advance(self, event: SpawnEvent, platform: &Platform) -> (following: Supervisor)
        ensures
            self.follows(event, *platform, following),
            self.over() ==> following == self,
            following matches Supervisor::Done(Ok(_)) && !self.over() ==> self is Drain && (
            event matches SpawnEvent::Report(bytes) && bytes@.len() == 0),
    {
        match self {
            Supervisor::Done(r) => Supervisor::Done(r),
            Supervisor::RunLauncher => Supervisor::RunLauncher,
            Supervisor::CreateChannel => match event {
                SpawnEvent::Completed => Supervisor::CreatePipe,
                SpawnEvent::Failed(code) => Supervisor::Done(Err(NewNixError::CreatingChannel(code))),
                _ => Supervisor::Done(Err(NewNixError::OutOfSequence)),
            },
            Supervisor::CreatePipe => match event {
                SpawnEvent::Completed => Supervisor::Fork,
                SpawnEvent::Failed(code) => Supervisor::Done(Err(NewNixError::CreatingPipe(code))),
                _ => Supervisor::Done(Err(NewNixError::OutOfSequence)),
            },
            Supervisor::Fork => match event {
                SpawnEvent::InParent => Supervisor::CloseErrorWriter,
                SpawnEvent::InChild => Supervisor::RunLauncher,
                SpawnEvent::Failed(code) => Supervisor::Done(Err(NewNixError::Forking(code))),
                _ => Supervisor::Done(Err(NewNixError::OutOfSequence)),
            },
            Supervisor::CloseErrorWriter => match event {
                SpawnEvent::Completed => Supervisor::Wait,
                _ => Supervisor::Done(Err(NewNixError::OutOfSequence)),
            },
            Supervisor::Wait => {
                let outcome = match event {
                    SpawnEvent::Status(status) => Ok(status),
                    SpawnEvent::Failed(code) => Err(code),
                    _ => {
                        return Supervisor::Done(Err(NewNixError::OutOfSequence));
                    },
                };
                match wait_step(outcome, platform) {
                    WaitStep::Again => Supervisor::Wait,
                    WaitStep::Reaped => Supervisor::Drain,
                    WaitStep::Fail(e) => Supervisor::Done(Err(e)),
                }
            },
            Supervisor::Drain => match event {
                SpawnEvent::Report(bytes) => Supervisor::Done(
                    Nix::new(bytes.as_slice(), platform.order),
                ),
                SpawnEvent::Failed(code) => Supervisor::Done(Err(NewNixError::ReadingPipe(code))),
                _ => Supervisor::Done(Err(NewNixError::OutOfSequence)),
            },
        }
    }
}

} // verus!
