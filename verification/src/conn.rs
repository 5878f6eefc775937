//! The connection to a running worker: its one request, and its shutdown.

use crate::bytes::{append, int_bytes, word_to_bytes, word_width};
use crate::child::NewError;
use crate::error::NewNixError;
use crate::platform::{listed_code, ByteOrder};
use vstd::prelude::*;

verus! {

/// The opcode of the request that registers a temp root.
pub const ADD_TEMPROOT: u8 = 0;

/// The status byte with which the worker answers a request that it served.
pub const STATUS_OK: u8 = 0;

/// Where a connection stands in the strict alternation of request and
/// response.
#[derive(Clone, Copy, Debug, PartialEq, Eq, Structural)]
pub enum Phase {
    /// No request is outstanding.
    Idle,
    /// A request was handed out and its response has not come.
    Awaiting,
    /// The worker broke the protocol; no further request can be made.
    Broken,
}

impl Phase {
    /// Where a connection stands once it was asked for a request: waiting
    /// for the response if it was idle, where it stood if not.
    pub open spec fn requested(self) -> Phase {
        match self {
            Phase::Idle => Phase::Awaiting,
            _ => self,
        }
    }

    /// Where a connection stands once it was handed a status byte: idle
    /// again if it waited for [`STATUS_OK`], broken if it waited and got
    /// another status, where it stood if it did not wait.
    pub open spec fn answered(self, status: u8) -> Phase {
        match self {
            Phase::Awaiting => if status == STATUS_OK {
                Phase::Idle
            } else {
                Phase::Broken
            },
            _ => self,
        }
    }

    /// What a connection makes of a status byte.
    pub open spec fn judged(self, status: u8) -> Result<(), TempRootError> {
        match self {
            Phase::Awaiting => if status == STATUS_OK {
                Ok(())
            } else {
                Err(TempRootError::BadResponse(status))
            },
            _ => Err(TempRootError::OutOfTurn),
        }
    }
}

/// Why a request, or its response, was not accepted.
#[derive(Clone, Copy, Debug, PartialEq, Eq, Structural)]
pub enum TempRootError {
    /// Fatal: the worker answered with this status, which is not
    /// [`STATUS_OK`].
    BadResponse(u8),
    /// A request was asked for while the connection was not idle, or a
    /// response was handed in that no request was waiting for.
    OutOfTurn,
}

impl TempRootError {
    /// What this failure is called in a diagnostic.
    pub open spec fn text(self) -> Seq<char> {
        match self {
            TempRootError::BadResponse(_) => "impossible byte from ffi-helper"@,
            TempRootError::OutOfTurn => "request or response out of turn"@,
        }
    }

    /// What this failure is called in a diagnostic.
    pub fn message(&self) -> (m: &'static str)
        ensures
            m@ == self.text(),
    {
        match self {
            TempRootError::BadResponse(_) => "impossible byte from ffi-helper",
            TempRootError::OutOfTurn => "request or response out of turn",
        }
    }
}

/// The caller's half of the byte stream to a worker, as far as the protocol
/// goes: it says which bytes to send and judges those that come back. There is
/// one for each spawn that succeeded, and the shutdown uses it up.
#[derive(Debug, PartialEq, Eq)]
pub struct Nix {
    phase: Phase,
    order: ByteOrder,
}

/// What is left to do of a shutdown. The caller performs it and hands the
/// outcome to [`Shutdown::advance`].
#[derive(Clone, Copy, Debug, PartialEq, Eq)]
pub enum Shutdown {
    /// Close the write direction of the stream, and leave the read direction
    /// open.
    CloseWrite,
    /// Read the stream to its end and drop what comes.
    Drain,
    /// Nothing: the shutdown is over, with this result. An error is the OS
    /// error code of the action that failed.
    Done(Result<(), i32>),
}

/// The request that registers the temp root `name`: the opcode, the length of
/// the name as a machine word, the name.
pub open spec fn temproot_request(name: Seq<u8>, order: ByteOrder) -> Seq<u8> {
    seq![ADD_TEMPROOT] + int_bytes(name.len(), word_width(), order) + name
}

impl Nix {
    /// Where the connection stands.
    pub closed spec fn phase(&self) -> Phase {
        self.phase
    }

    /// The byte order in which the connection writes the length of a name:
    /// that of the machine which runs both ends.
    pub closed spec fn order(&self) -> ByteOrder {
        self.order
    }

    /// Whether `outcome` is a way in which a spawn may end whose error
    /// channel held `report` when it was closed. An empty channel is the
    /// success, and the connection is idle and keeps the byte order. Anything else is a failure: the
    /// one that the record stands for, with its OS error code or, where the
    /// platform does not know that code, with 0; the fatal
    /// [`NewNixError::MalformedReport`] where the bytes are no record.
    pub open spec fn resolves(
        report: Seq<u8>,
        order: ByteOrder,
        outcome: Result<Nix, NewNixError>,
    ) -> bool {
        if report.len() == 0 {
            outcome matches Ok(nix) && nix.phase() == Phase::Idle && nix.order() == order
        } else {
            match NewError::parse(report, order) {
                Some(e) => outcome == Err::<Nix, NewNixError>(
                    NewNixError::reported(e.cause, e.errno),
                ) || outcome == Err::<Nix, NewNixError>(NewNixError::reported(e.cause, 0)),
                None => outcome == Err::<Nix, NewNixError>(NewNixError::MalformedReport),
            }
        }
    }

    /// Ends a spawn: `report` is what the error channel held when it was
    /// closed, and `order` the byte order of the machine.
    pub fn new(report: &[u8], order: ByteOrder) -> (r: Result<Nix, NewNixError>)
        ensures
            Self::resolves(report@, order, r),
            r is Ok <==> report@.len() == 0,
    {
        if report.len() == 0 {
            return Ok(Nix { phase: Phase::Idle, order });
        }
        match NewError::from_bytes(report, order) {
            Some(e) => Err(
                NewNixError::from_report(NewError { cause: e.cause, errno: listed_code(e.errno) }),
            ),
            None => Err(NewNixError::MalformedReport),
        }
    }

    /// Where the connection stands.
    pub fn current_phase(&self) -> (p: Phase)
        ensures
            p == self.phase(),
    {
        self.phase
    }

    /// The byte order in which the connection writes the length of a name.
    pub fn byte_order(&self) -> (o: ByteOrder)
        ensures
            o == self.order(),
    {
        self.order
    }

    /// Starts the registration of the temp root `base_name`, which may be
    /// empty: gives the bytes to send to the worker. The connection then
    /// waits for the response. Only an idle connection takes a request.
    pub fn add_temproot(&mut self, base_name: &[u8]) -> (r: Result<Vec<u8>, TempRootError>)
        ensures
            final(self).phase() == old(self).phase().requested(),
            final(self).order() == old(self).order(),
            match r {
                Ok(request) => old(self).phase() == Phase::Idle && request@ == temproot_request(
                    base_name@,
                    old(self).order(),
                ),
                Err(e) => old(self).phase() != Phase::Idle && e == TempRootError::OutOfTurn,
            },
    {
        match self.phase {
            Phase::Idle => {},
            _ => {
                return Err(TempRootError::OutOfTurn);
            },
        }
        let mut request: Vec<u8> = Vec::new();
        request.push(ADD_TEMPROOT);
        let length = word_to_bytes(base_name.len(), self.order);
        append(&mut request, length.as_slice());
        append(&mut request, base_name);
        self.phase = Phase::Awaiting;
        Ok(request)
    }

    /// Judges the status byte with which the worker answered the outstanding
    /// request. [`STATUS_OK`] ends the registration and the connection is idle
    /// again. Any other status is fatal and breaks the connection.
    pub fn response(&mut self, status: u8) -> (r: Result<(), TempRootError>)
        ensures
            final(self).phase() == old(self).phase().answered(status),
            final(self).order() == old(self).order(),
            r == old(self).phase().judged(status),
            r is Ok <==> old(self).phase() == Phase::Awaiting && status == STATUS_OK,
    {
        match self.phase {
            Phase::Awaiting => {
                if status == STATUS_OK {
                    self.phase = Phase::Idle;
                    Ok(())
                } else {
                    self.phase = Phase::Broken;
                    Err(TempRootError::BadResponse(status))
                }
            },
            _ => Err(TempRootError::OutOfTurn),
        }
    }

    /// Starts the shutdown, which uses the connection up.
    pub fn wait_for_exit(self) -> (first: Shutdown)
        ensures
            first == Shutdown::CloseWrite,
    {
        Shutdown::CloseWrite
    }
}

impl Shutdown {
    /// What follows an action that failed with the OS error code `failure`
    /// or, with `None`, went well: the write direction is closed before the
    /// stream is drained, the end of the stream ends the shutdown, and the
    /// first failure ends it too.
    pub open spec fn next(self, failure: Option<i32>) -> Shutdown {
        match self {
            Shutdown::Done(r) => Shutdown::Done(r),
            _ => match failure {
                Some(code) => Shutdown::Done(Err(code)),
                None => match self {
                    Shutdown::CloseWrite => Shutdown::Drain,
                    _ => Shutdown::Done(Ok(())),
                },
            },
        }
    }

    /// Decides what follows the action `self`.
    pub fn advance(self, failure: Option<i32>) -> (following: Shutdown)
        ensures
            following == self.next(failure),
    {
        match self {
            Shutdown::Done(r) => Shutdown::Done(r),
            Shutdown::CloseWrite => match failure {
                Some(code) => Shutdown::Done(Err(code)),
                None => Shutdown::Drain,
            },
            Shutdown::Drain => match failure {
                Some(code) => Shutdown::Done(Err(code)),
                None => Shutdown::Done(Ok(())),
            },
        }
    }
}

} // verus!
