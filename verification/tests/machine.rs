use pidone::events::{Action, Event, ExitOutcome};
use pidone::machine::{Phase, Supervisor};

fn running_with(pid: i32) -> Supervisor {
    Supervisor { phase: Phase::Running, child: Some(pid), attached: false, exit_code: None }
}

#[test]
fn new_supervisor_is_starting() {
    let sup = Supervisor::new();
    assert_eq!(sup.phase, Phase::Starting);
    assert_eq!(sup.child, None);
    assert_eq!(sup.attached, false);
    assert_eq!(sup.exit_code, None);
}

#[test]
fn spawned_moves_starting_to_running() {
    let mut sup = Supervisor::new();
    let action = sup.step(Event::Spawned(42));
    assert_eq!(action, Action::Nothing);
    assert_eq!(sup.phase, Phase::Running);
    assert_eq!(sup.child, Some(42));
}

#[test]
fn spawn_failure_is_fatal() {
    let mut sup = Supervisor::new();
    let action = sup.step(Event::SpawnFailed);
    assert_eq!(action, Action::Exit(1));
    assert_eq!(sup.phase, Phase::Exited);
    assert_eq!(sup.exit_code, Some(1));
}

#[test]
fn child_exit_code_seven_exits_seven() {
    let mut sup = running_with(5);
    let action = sup.step(Event::ChildExited(ExitOutcome::Code(7)));
    assert_eq!(action, Action::Exit(7));
    assert_eq!(sup.phase, Phase::Exited);
    assert_eq!(sup.child, None);
    assert_eq!(sup.exit_code, Some(7));
}

#[test]
fn child_killed_by_signal_exits_generic_failure() {
    let mut sup = running_with(5);
    let action = sup.step(Event::ChildExited(ExitOutcome::Signaled));
    assert_eq!(action, Action::Exit(1));
    assert_eq!(sup.exit_code, Some(1));
}

#[test]
fn child_exit_code_zero_exits_zero() {
    let mut sup = running_with(5);
    let action = sup.step(Event::ChildExited(ExitOutcome::Code(0)));
    assert_eq!(action, Action::Exit(0));
    assert_eq!(sup.exit_code, Some(0));
}

#[test]
fn forwardable_signal_goes_to_child_unchanged() {
    let mut sup = running_with(5);
    let before = sup;
    let action = sup.step(Event::ForwardSignal(64));
    assert_eq!(action, Action::Forward(5, 64));
    assert_eq!(sup, before);
}

#[test]
fn forward_without_child_does_nothing() {
    let mut sup = Supervisor {
        phase: Phase::Paused,
        child: None,
        attached: false,
        exit_code: None,
    };
    let action = sup.step(Event::ForwardSignal(64));
    assert_eq!(action, Action::Nothing);
    assert_eq!(sup.phase, Phase::Paused);
}

#[test]
fn shutdown_while_running_stops_child_gracefully() {
    let mut sup = running_with(5);
    let action = sup.step(Event::Shutdown);
    assert_eq!(action, Action::GracefulStop(5));
    assert_eq!(sup.phase, Phase::Terminating);
    assert_eq!(sup.child, Some(5));
}

#[test]
fn shutdown_twice_same_exit_code_no_second_action() {
    let mut sup = running_with(5);
    let first = sup.step(Event::Shutdown);
    let after_first = sup;
    let second = sup.step(Event::Shutdown);
    assert_eq!(first, Action::GracefulStop(5));
    assert_eq!(second, Action::Nothing);
    assert_eq!(sup, after_first);
    let exit = sup.step(Event::ChildExited(ExitOutcome::Code(3)));
    assert_eq!(exit, Action::Exit(3));
    assert_eq!(sup.exit_code, Some(3));
}

#[test]
fn shutdown_twice_while_paused_same_exit_code() {
    let mut sup = Supervisor {
        phase: Phase::Paused,
        child: None,
        attached: false,
        exit_code: None,
    };
    let first = sup.step(Event::Shutdown);
    assert_eq!(first, Action::Exit(0));
    assert_eq!(sup.exit_code, Some(0));
    let second = sup.step(Event::Shutdown);
    assert_eq!(second, Action::Nothing);
    assert_eq!(sup.exit_code, Some(0));
}

#[test]
fn pause_resume_cycle_exit_reflects_final_generation() {
    let mut sup = running_with(5);
    let stop = sup.step(Event::PauseRequest);
    assert_eq!(stop, Action::StopChild(5));
    assert_eq!(sup.phase, Phase::Paused);
    assert_eq!(sup.child, None);

    let ask = sup.step(Event::ResumeRequest);
    assert_eq!(ask, Action::Spawn);
    assert_eq!(sup.phase, Phase::Starting);

    let noted = sup.step(Event::Spawned(9));
    assert_eq!(noted, Action::Nothing);
    assert_eq!(sup.phase, Phase::Running);
    assert_eq!(sup.child, Some(9));

    let exit = sup.step(Event::ChildExited(ExitOutcome::Code(4)));
    assert_eq!(exit, Action::Exit(4));
    assert_eq!(sup.exit_code, Some(4));
}

#[test]
fn resume_while_running_restarts() {
    let mut sup = running_with(5);
    let action = sup.step(Event::ResumeRequest);
    assert_eq!(action, Action::Restart(5));
    assert_eq!(sup.phase, Phase::Starting);
    assert_eq!(sup.child, None);
}

#[test]
fn pause_while_paused_does_nothing() {
    let mut sup = Supervisor {
        phase: Phase::Paused,
        child: None,
        attached: false,
        exit_code: None,
    };
    let action = sup.step(Event::PauseRequest);
    assert_eq!(action, Action::Nothing);
    assert_eq!(sup.phase, Phase::Paused);
}

#[test]
fn orphan_activity_drains_reaper() {
    let mut sup = running_with(5);
    let action = sup.step(Event::OrphanActivity);
    assert_eq!(action, Action::Reap);
    assert_eq!(sup.phase, Phase::Running);

    let mut paused = Supervisor {
        phase: Phase::Paused,
        child: None,
        attached: false,
        exit_code: None,
    };
    assert_eq!(paused.step(Event::OrphanActivity), Action::Reap);
}

#[test]
fn detector_attach_pauses_and_detach_resumes() {
    let mut sup = running_with(5);
    let stop = sup.step(Event::DetectorReport(true));
    assert_eq!(stop, Action::StopChild(5));
    assert_eq!(sup.phase, Phase::Paused);
    assert_eq!(sup.child, None);
    assert_eq!(sup.attached, true);

    let same = sup.step(Event::DetectorReport(true));
    assert_eq!(same, Action::Reap);
    assert_eq!(sup.phase, Phase::Paused);

    let resume = sup.step(Event::DetectorReport(false));
    assert_eq!(resume, Action::Spawn);
    assert_eq!(sup.phase, Phase::Starting);
    assert_eq!(sup.attached, false);
}

#[test]
fn unchanged_detector_tick_is_the_periodic_safety_net() {
    let mut sup = running_with(5);
    assert_eq!(sup.step(Event::DetectorReport(false)), Action::Reap);
    assert_eq!(sup.phase, Phase::Running);
    assert_eq!(sup.child, Some(5));
}

#[test]
fn spawned_ignored_outside_spawn_window() {
    let mut sup = running_with(5);
    let action = sup.step(Event::Spawned(8));
    assert_eq!(action, Action::Nothing);
    assert_eq!(sup.child, Some(5));
}

#[test]
fn events_ignored_after_exit() {
    let mut sup = running_with(5);
    sup.step(Event::ChildExited(ExitOutcome::Code(2)));
    let before = sup;
    assert_eq!(sup.step(Event::Shutdown), Action::Nothing);
    assert_eq!(sup.step(Event::PauseRequest), Action::Nothing);
    assert_eq!(sup.step(Event::OrphanActivity), Action::Nothing);
    assert_eq!(sup.step(Event::ForwardSignal(10)), Action::Nothing);
    assert_eq!(sup, before);
}
