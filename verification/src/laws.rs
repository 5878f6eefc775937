//! What holds across the two sides of the bootstrap and across the requests
//! of a connection.

use crate::child::{ChildStep, Forked, Launcher, NewError, NewErrorCause};
use crate::conn::{Phase, Shutdown, STATUS_OK};
use crate::error::NewNixError;
use crate::platform::Platform;
use crate::spawn::{waited, ChildStatus, SpawnEvent, Supervisor, WaitStep};
use vstd::prelude::*;

verus! {

/// The failure of a spawn whose grandchild failed at `step`.
pub open spec fn step_failure(step: ChildStep, errno: i32) -> NewNixError {
    match step {
        ChildStep::SetStdin => NewNixError::HelperStdin(errno),
        ChildStep::SetStdout => NewNixError::HelperStdout(errno),
        ChildStep::Exec => NewNixError::HelperExec(errno),
    }
}

/// A failure of the grandchild surfaces in the caller under the step that
/// failed. When `step` fails with the OS error code `errno`, the forked side
/// reports just that; and once the caller has read the record of it from the
/// error channel, the spawn is over with the failure of that step, which
/// carries `errno`, or 0 where the platform does not know `errno`.
pub proof fn lemma_failed_step_surfaces(
    step: ChildStep,
    errno: i32,
    platform: Platform,
    report: Vec<u8>,
    following: Supervisor,
)
    requires
        report@ == (NewError { cause: step.cause(), errno }).record(platform.order),
        Supervisor::Drain.follows(SpawnEvent::Report(report), platform, following),
    ensures
        Launcher::Step(step).next(Some(errno)) == Launcher::Report(
            NewError { cause: step.cause(), errno },
        ),
        following == Supervisor::Done(Err(step_failure(step, errno))) || following
            == Supervisor::Done(Err(step_failure(step, 0))),
{
    crate::child::lemma_record_round_trip(NewError { cause: step.cause(), errno }, platform.order);
}

/// A failure of the launcher's own fork surfaces in the caller as such. When
/// that fork fails with the OS error code `errno`, the launcher reports just
/// that; and once the caller has read the record of it from the error
/// channel, the spawn is over with the double-fork failure, which carries
/// `errno`, or 0 where the platform does not know `errno`.
pub proof fn lemma_failed_second_fork_surfaces(
    errno: i32,
    platform: Platform,
    report: Vec<u8>,
    following: Supervisor,
)
    requires
        report@ == (NewError { cause: NewErrorCause::DoubleFork, errno }).record(platform.order),
        Supervisor::Drain.follows(SpawnEvent::Report(report), platform, following),
    ensures
        Launcher::start(Forked::Failed(errno)) == Launcher::Report(
            NewError { cause: NewErrorCause::DoubleFork, errno },
        ),
        following == Supervisor::Done(Err(NewNixError::DoubleForking(errno))) || following
            == Supervisor::Done(Err(NewNixError::DoubleForking(0))),
{
    crate::child::lemma_record_round_trip(
        NewError { cause: NewErrorCause::DoubleFork, errno },
        platform.order,
    );
}

/// A failure of one of the caller's own actions surfaces under that action.
/// When the creation of the stream pair, the creation of the error channel,
/// the fork or the reading of the error channel fails with the OS error code
/// `code`, the spawn is over with the failure of that action, which carries
/// `code`. A wait that fails does so too, unless the code is one of the two
/// that the platform sets apart.
pub proof fn lemma_failed_action_surfaces(action: Supervisor, code: i32, platform: Platform)
    ensures
        action.failure(code) matches Some(e) ==> action.next(SpawnEvent::Failed(code), platform)
            == Supervisor::Done(Err(e)),
        action is CreateChannel ==> action.failure(code) == Some(NewNixError::CreatingChannel(code)),
        action is CreatePipe ==> action.failure(code) == Some(NewNixError::CreatingPipe(code)),
        action is Fork ==> action.failure(code) == Some(NewNixError::Forking(code)),
        action is Drain ==> action.failure(code) == Some(NewNixError::ReadingPipe(code)),
        action is Wait && code != platform.interrupted && code != platform.no_child ==> action.next(
            SpawnEvent::Failed(code),
            platform,
        ) == Supervisor::Done(Err(NewNixError::Waiting(code))),
{
}

/// A platform that tells its two codes apart has every failed wait judged
/// for what it is. The code of an interrupted call has the wait made again
/// and the code of a wait without a child has the launcher done with,
/// neither being taken for the other; and the code 0, which stands for no OS
/// error, fails the spawn and is never waited on again.
pub proof fn lemma_wait_codes_apart(platform: Platform)
    requires
        platform.wf(),
    ensures
        waited(Err::<ChildStatus, i32>(platform.interrupted), platform) == WaitStep::Again,
        waited(Err::<ChildStatus, i32>(platform.no_child), platform) == WaitStep::Reaped,
        waited(Err::<ChildStatus, i32>(0), platform) == WaitStep::Fail(NewNixError::Waiting(0)),
{
}

/// The actions of a spawn come in one order. The error channel is created
/// after the stream pair and before the fork. In the caller's process the
/// fork is followed by the closing of the caller's copy of the write half,
/// that by the wait, and only a wait that is done with the launcher by the
/// reading of the error channel: so the end of that channel shows that the
/// forked side has let go of it, and not that the caller still held it. The
/// new process is handed to the launcher straight from the fork.
pub proof fn lemma_actions_in_order(
    action: Supervisor,
    event: SpawnEvent,
    platform: Platform,
    following: Supervisor,
)
    requires
        action.follows(event, platform, following),
    ensures
        following !is CreateChannel,
        following is CreatePipe ==> action is CreateChannel,
        following is Fork ==> action is CreatePipe,
        following is RunLauncher ==> action is RunLauncher || (action is Fork && event is InChild),
        following is CloseErrorWriter ==> action is Fork && event is InParent,
        following is Wait ==> action is CloseErrorWriter || action is Wait,
        following is Drain ==> action is Wait,
{
}

/// A spawn has no partial success. Whatever an action ends in, what follows
/// is another action, or the failure of the spawn, or a connection that is
/// idle and so takes a request; and a connection comes only out of an error
/// channel that was read to its end and held nothing.
pub proof fn lemma_no_partial_success(
    action: Supervisor,
    event: SpawnEvent,
    platform: Platform,
    following: Supervisor,
)
    requires
        !action.over(),
        action.follows(event, platform, following),
    ensures
        following matches Supervisor::Done(Ok(nix)) ==> {
            &&& nix.phase() == Phase::Idle
            &&& action is Drain
            &&& event matches SpawnEvent::Report(bytes) && bytes@.len() == 0
        },
{
}

/// A shutdown closes before it drains, and ends well only after both. The
/// stream is read to its end only once its write direction is closed, and
/// the shutdown succeeds only when that reading has come to the end.
pub proof fn lemma_shutdown_in_order(action: Shutdown, failure: Option<i32>)
    ensures
        action.next(failure) !is CloseWrite,
        action.next(failure) is Drain ==> action is CloseWrite && failure is None,
        action.next(failure) == Shutdown::Done(Ok(())) ==> action == Shutdown::Done(Ok(())) || (
        action is Drain && failure is None),
{
}

/// Where a connection stands after `times` registrations that the worker
/// answered with [`STATUS_OK`].
pub open spec fn registered(phase: Phase, times: nat) -> Phase
    decreases times,
{
    if times == 0 {
        phase
    } else {
        registered(phase, (times - 1) as nat).requested().answered(STATUS_OK)
    }
}

/// Registrations repeat. However many the worker has served on a
/// connection, the connection is idle after them: it takes the next request,
/// for a name that it has registered before as for any other, and the
/// worker's [`STATUS_OK`] ends that one well too.
pub proof fn lemma_registration_repeats(times: nat)
    ensures
        registered(Phase::Idle, times) == Phase::Idle,
        registered(Phase::Idle, times).requested() == Phase::Awaiting,
        registered(Phase::Idle, times).requested().judged(STATUS_OK) == Ok::<
            (),
            crate::conn::TempRootError,
        >(()),
    decreases times,
{
    if times > 0 {
        lemma_registration_repeats((times - 1) as nat);
    }
}

} // verus!
