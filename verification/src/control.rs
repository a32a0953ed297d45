//! The control loop's verified body: turn a received signal, a detector
//! report or a launcher result into one state-machine step, and perform
//! the side effect the step asks for. The embedding program only waits
//! for signals, spawns children, and obeys the returned directive.

use vstd::prelude::*;

use crate::events::{
    Action, Directive, Event, ExitOutcome, SignalRole, SIGNUM_KILL, SIGNUM_TERM, classify_signal,
    spec_classify,
};
use crate::machine::{Supervisor, action_wf, event_wf, spec_step};
use crate::reaper::reap_all;
use crate::sys::{WaitOutcome, log_wait_failure, send_signal, wait_on};

verus! {

/// What the embedding program must do for each action the machine emits.
pub open spec fn spec_directive(action: Action) -> Directive {
    match action {
        Action::Spawn => Directive::SpawnChild,
        Action::Restart(_) => Directive::SpawnChild,
        Action::Exit(code) => Directive::Exit(code),
        _ => Directive::Continue,
    }
}

/// Perform the side effect of one action: drain the reaper, forward a
/// signal, or stop a child (kill it, wait on it, then drain the orphans
/// it may have left), and say what remains for the embedding program:
/// spawning is its job, and so is exiting after the final reap pass this
/// function has already run.
pub fn perform(action: Action) -> (directive: Directive)
    requires
        action_wf(action),
    ensures
        directive == spec_directive(action),
{
    match action {
        Action::Nothing => Directive::Continue,
        Action::Reap => {
            drain_and_note();
            Directive::Continue
        },
        Action::Forward(pid, signum) => {
            send_signal(pid, signum);
            Directive::Continue
        },
        Action::StopChild(pid) => {
            stop_child(pid);
            Directive::Continue
        },
        Action::GracefulStop(pid) => {
            send_signal(pid, SIGNUM_TERM);
            Directive::Continue
        },
        Action::Restart(pid) => {
            stop_child(pid);
            Directive::SpawnChild
        },
        Action::Spawn => Directive::SpawnChild,
        Action::Exit(code) => {
            drain_and_note();
            Directive::Exit(code)
        },
    }
}

/// Drain the reaper, and print the single diagnostic line a recoverable
/// wait failure is owed when the drain stopped on one.
fn drain_and_note()
{
    let report = reap_all();
    if report.wait_error {
        log_wait_failure();
    }
}

/// Terminate a tracked child for the pause and restart paths: kill it,
/// wait on it so its wait obligation is discharged exactly once, then
/// drain any orphans it left behind.
fn stop_child(pid: i32)
    requires
        pid > 0,
{
    send_signal(pid, SIGNUM_KILL);
    wait_on(pid, false);
    drain_and_note();
}

/// The event each poll outcome of the tracked child drives: a normal
/// exit carries the child's status, a kill by signal and a child gone
/// without a collectable status end the supervisor with the failure
/// code, and everything else — the child still alive, a stop or a
/// continue, or a failed poll retried on the next tick — leaves the
/// tracked child in place and only drains the orphans.
pub open spec fn spec_wait_event(outcome: WaitOutcome) -> Event {
    match outcome {
        WaitOutcome::Exited(_, code) => Event::ChildExited(ExitOutcome::Code(code)),
        WaitOutcome::Signaled(_) => Event::ChildExited(ExitOutcome::Signaled),
        WaitOutcome::NoChildren => Event::ChildExited(ExitOutcome::Lost),
        WaitOutcome::OtherChange(_) => Event::OrphanActivity,
        WaitOutcome::StillAlive => Event::OrphanActivity,
        WaitOutcome::WaitError => Event::OrphanActivity,
    }
}

/// Turn one poll outcome of the tracked child into the event that drives
/// the state machine, exactly as `spec_wait_event` fixes it.
pub fn wait_event(outcome: WaitOutcome) -> (event: Event)
    ensures
        event == spec_wait_event(outcome),
{
    match outcome {
        WaitOutcome::Exited(_, code) => Event::ChildExited(ExitOutcome::Code(code)),
        WaitOutcome::Signaled(_) => Event::ChildExited(ExitOutcome::Signaled),
        WaitOutcome::NoChildren => Event::ChildExited(ExitOutcome::Lost),
        WaitOutcome::OtherChange(_) => Event::OrphanActivity,
        WaitOutcome::StillAlive => Event::OrphanActivity,
        WaitOutcome::WaitError => Event::OrphanActivity,
    }
}

/// Poll the tracked child after a child-state-change signal: if the
/// child terminated this reaps it and reports how it ended; if only an
/// orphan changed state (or the poll failed and will be retried on the
/// next tick) the tracked child lives on. The poll's outcome depends on
/// the live process table, but the event is `spec_wait_event` of it.
pub fn child_event(pid: i32) -> (event: Event)
    requires
        pid > 0,
    ensures
        exists|outcome: WaitOutcome| event == #[trigger] spec_wait_event(outcome),
        event_wf(event),
{
    let outcome = wait_on(pid, true);
    let event = wait_event(outcome);
    proof {
        assert(event == spec_wait_event(outcome));
    }
    event
}

/// The events one received signal can give rise to: every role maps to
/// its one event, except a child-state change, whose event is
/// `spec_wait_event` of whatever the poll of the tracked child reports.
pub open spec fn spec_signal_event(s: Supervisor, signum: i32, event: Event) -> bool {
    match spec_classify(signum) {
        SignalRole::ChildChange => if s.child is Some {
            exists|outcome: WaitOutcome| event == #[trigger] spec_wait_event(outcome)
        } else {
            event == Event::OrphanActivity
        },
        SignalRole::Shutdown => event == Event::Shutdown,
        SignalRole::Pause => event == Event::PauseRequest,
        SignalRole::Resume => event == Event::ResumeRequest,
        SignalRole::Forward(forwarded) => event == Event::ForwardSignal(forwarded),
    }
}

/// Handle one received signal: classify it, poll the tracked child if it
/// announces a child-state change, take one state-machine step on the
/// resulting event, and perform the step's action. The new state and the
/// directive are exactly those of one step on an event the signal can
/// give rise to.
pub fn on_signal(sup: &mut Supervisor, signum: i32) -> (directive: Directive)
    requires
        old(sup).wf(),
    ensures
        final(sup).wf(),
        exists|event: Event|
            #[trigger] spec_signal_event(*old(sup), signum, event)
                && *final(sup) == spec_step(*old(sup), event).0
                && directive == spec_directive(spec_step(*old(sup), event).1),
{
    let role = classify_signal(signum);
    let event = match role {
        SignalRole::ChildChange => match sup.child_pid() {
            Some(pid) => child_event(pid),
            None => Event::OrphanActivity,
        },
        SignalRole::Shutdown => Event::Shutdown,
        SignalRole::Pause => Event::PauseRequest,
        SignalRole::Resume => Event::ResumeRequest,
        SignalRole::Forward(forwarded) => Event::ForwardSignal(forwarded),
    };
    let ghost pre = *sup;
    let action = sup.step(event);
    proof {
        assert(spec_signal_event(pre, signum, event));
    }
    perform(action)
}

/// The event a launcher report stands for: a live child with a usable
/// (positive, in-range) process id, or a failed spawn.
pub open spec fn spec_spawn_event(pid: Option<u32>) -> Event {
    match pid {
        Some(p) => if 0 < p <= 0x7fff_ffffu32 {
            Event::Spawned(p as i32)
        } else {
            Event::SpawnFailed
        },
        None => Event::SpawnFailed,
    }
}

/// Report the launcher's result for the spawn the machine requested:
/// take one step on the corresponding event and perform its action. A
/// process id too large to be tracked safely counts as a failed spawn.
pub fn on_spawn_result(sup: &mut Supervisor, pid: Option<u32>) -> (directive: Directive)
    requires
        old(sup).wf(),
    ensures
        final(sup).wf(),
        *final(sup) == spec_step(*old(sup), spec_spawn_event(pid)).0,
        directive == spec_directive(spec_step(*old(sup), spec_spawn_event(pid)).1),
{
    let event = match pid {
        Some(p) => {
            if 0 < p && p <= 0x7fff_ffffu32 {
                Event::Spawned(p as i32)
            } else {
                Event::SpawnFailed
            }
        },
        None => Event::SpawnFailed,
    };
    let action = sup.step(event);
    perform(action)
}

/// Signal forwarding fidelity: a signal with no special role, received
/// while a child is running, can give rise to exactly one event — the
/// forward event carrying the identical signal number — and its one step
/// delivers that number to the child's process id as its only action,
/// leaving the supervisor state unchanged.
pub proof fn lemma_forwarding_fidelity(s: Supervisor, signum: i32, event: Event)
    requires
        s.wf(),
        s.phase == crate::machine::Phase::Running,
        spec_classify(signum) matches SignalRole::Forward(_),
        spec_signal_event(s, signum, event),
    ensures
        event == Event::ForwardSignal(signum),
        spec_step(s, event).0 == s,
        spec_step(s, event).1 == Action::Forward(s.child->0, signum),
{
}

/// Report one poll of the debugger-attach detector: take one step on the
/// report event and perform its action. The machine pauses on the flip
/// to attached while running and resumes on the flip to detached while
/// paused; a tick that causes no transition notes the flag and drains
/// the reaper, the periodic safety net.
pub fn on_detector_tick(sup: &mut Supervisor, attached_now: bool) -> (directive: Directive)
    requires
        old(sup).wf(),
    ensures
        final(sup).wf(),
        *final(sup) == spec_step(*old(sup), Event::DetectorReport(attached_now)).0,
        directive == spec_directive(spec_step(*old(sup), Event::DetectorReport(attached_now)).1),
{
    let action = sup.step(Event::DetectorReport(attached_now));
    perform(action)
}

} // verus!
