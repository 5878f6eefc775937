use nix_ffi::child::{grandchild_wrapped, new, ChildStep, Forked, Launcher, NewError, NewErrorCause};

#[test]
fn launcher_leaves_with_zero_once_the_grandchild_exists() {
    assert_eq!(new(Forked::Parent), Launcher::Exit(0));
    assert_eq!(Launcher::Exit(0).advance(None), Launcher::Exit(0));
}

#[test]
fn grandchild_starts_with_its_standard_input() {
    assert_eq!(new(Forked::Child), Launcher::Step(ChildStep::SetStdin));
}

#[test]
fn failed_second_fork_is_reported() {
    let first = new(Forked::Failed(11));
    assert_eq!(first, Launcher::Report(NewError { cause: NewErrorCause::DoubleFork, errno: 11 }));
    assert_eq!(first.advance(None), Launcher::Exit(1));
}

#[test]
fn grandchild_goes_through_its_steps() {
    let a = new(Forked::Child);
    let b = a.advance(None);
    assert_eq!(b, Launcher::Step(ChildStep::SetStdout));
    let c = b.advance(None);
    assert_eq!(c, Launcher::Step(ChildStep::Exec));
}

#[test]
fn failed_stdin_is_reported_with_its_code() {
    let next = Launcher::Step(ChildStep::SetStdin).advance(Some(9));
    assert_eq!(next, Launcher::Report(NewError { cause: NewErrorCause::SetStdin, errno: 9 }));
    assert_eq!(next.advance(None), Launcher::Exit(1));
}

#[test]
fn failed_stdout_is_reported_with_its_code() {
    let next = Launcher::Step(ChildStep::SetStdout).advance(Some(24));
    assert_eq!(next, Launcher::Report(NewError { cause: NewErrorCause::SetStdout, errno: 24 }));
}

#[test]
fn failed_exec_is_reported_with_its_code() {
    let next = Launcher::Step(ChildStep::Exec).advance(Some(2));
    assert_eq!(next, Launcher::Report(NewError { cause: NewErrorCause::Exec, errno: 2 }));
}

#[test]
fn exec_that_comes_back_has_failed() {
    let next = Launcher::Step(ChildStep::Exec).advance(None);
    assert_eq!(next, Launcher::Report(NewError { cause: NewErrorCause::Exec, errno: 0 }));
}

#[test]
fn report_is_followed_by_exit_one_whatever_the_write_did() {
    let report = Launcher::Report(NewError { cause: NewErrorCause::Exec, errno: 2 });
    assert_eq!(report.advance(None), Launcher::Exit(1));
    assert_eq!(report.advance(Some(32)), Launcher::Exit(1));
}

#[test]
fn exit_stays() {
    assert_eq!(Launcher::Exit(1).advance(Some(5)), Launcher::Exit(1));
    assert_eq!(Launcher::Exit(0).advance(None), Launcher::Exit(0));
}

#[test]
fn grandchild_step_decisions() {
    assert_eq!(grandchild_wrapped(ChildStep::SetStdin, None), Ok(ChildStep::SetStdout));
    assert_eq!(grandchild_wrapped(ChildStep::SetStdout, None), Ok(ChildStep::Exec));
    assert_eq!(
        grandchild_wrapped(ChildStep::SetStdin, Some(9)),
        Err(NewError { cause: NewErrorCause::SetStdin, errno: 9 })
    );
    assert_eq!(
        grandchild_wrapped(ChildStep::SetStdout, Some(9)),
        Err(NewError { cause: NewErrorCause::SetStdout, errno: 9 })
    );
    assert_eq!(
        grandchild_wrapped(ChildStep::Exec, Some(2)),
        Err(NewError { cause: NewErrorCause::Exec, errno: 2 })
    );
    assert_eq!(
        grandchild_wrapped(ChildStep::Exec, None),
        Err(NewError { cause: NewErrorCause::Exec, errno: 0 })
    );
}

#[test]
fn every_run_of_the_forked_side_ends() {
    for forked in [Forked::Parent, Forked::Child, Forked::Failed(12)] {
        for failure in [None, Some(5)] {
            let mut state = new(forked);
            let mut steps = 0;
            while !matches!(state, Launcher::Exit(_)) {
                state = state.advance(failure);
                steps += 1;
                assert!(steps <= 4);
            }
        }
    }
}
